[package]
name = "quadrender"
version = "0.1.0"
edition = "2021"
publish = false

[dependencies]
wgpu = "0.16"
winit = "0.28"
cgmath = "0.18"
bytemuck = { version = "1", features = ["derive"] }
pollster = "0.3"
