//! Verified core of a small GPU quad renderer.
//!
//! The crate models the decision-making heart of a rendering session that
//! draws one colored quad into a window-bound surface: the perspective
//! camera and its depth mapping, the fixed quad geometry, the negotiated
//! surface and pipeline configuration, and the session state machine that
//! reacts to resize, input, and redraw events.  The host shell performs the
//! actual GPU and window-system calls and feeds their outcomes back into
//! these verified functions as plain values.

pub mod camera;
pub mod geometry;
pub mod pipeline;
pub mod session;

