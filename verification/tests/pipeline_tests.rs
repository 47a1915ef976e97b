use quadrender::pipeline::{
    camera_binding, choose_surface_format, clear_color, negotiate_surface_config, pipeline_config,
    vertex_layout, BlendMode, ConfigError, CullMode, FrontFace, PresentPacing, StageVisibility,
    SurfaceFormat, Topology,
};

fn fmt(code: u32, srgb: bool) -> SurfaceFormat {
    SurfaceFormat { code, srgb }
}

#[test]
fn choose_format_prefers_first_srgb() {
    let formats = vec![fmt(0, false), fmt(2, true), fmt(3, true)];
    let r = choose_surface_format(&formats);
    assert_eq!(r, Some(fmt(2, true)));
}

#[test]
fn choose_format_falls_back_to_first_reported() {
    let formats = vec![fmt(5, false), fmt(6, false)];
    let r = choose_surface_format(&formats);
    assert_eq!(r, Some(fmt(5, false)));
}

#[test]
fn choose_format_none_when_nothing_reported() {
    let formats: Vec<SurfaceFormat> = vec![];
    assert_eq!(choose_surface_format(&formats), None);
}

#[test]
fn negotiate_reports_each_missing_ingredient() {
    let none: Vec<SurfaceFormat> = vec![];
    let some = vec![fmt(1, true)];
    assert_eq!(
        negotiate_surface_config(&none, 1, 800, 600).unwrap_err(),
        ConfigError::NoFormats
    );
    assert_eq!(
        negotiate_surface_config(&some, 0, 800, 600).unwrap_err(),
        ConfigError::NoAlphaModes
    );
    assert_eq!(
        negotiate_surface_config(&some, 1, 0, 600).unwrap_err(),
        ConfigError::ZeroDimension
    );
    assert_eq!(
        negotiate_surface_config(&some, 1, 800, 0).unwrap_err(),
        ConfigError::ZeroDimension
    );
}

#[test]
fn negotiate_adopts_size_and_first_alpha_mode() {
    let formats = vec![fmt(4, false), fmt(7, true)];
    let c = negotiate_surface_config(&formats, 2, 1280, 720).unwrap();
    assert_eq!(c.format, fmt(7, true));
    assert_eq!(c.width, 1280);
    assert_eq!(c.height, 720);
    assert_eq!(c.present, PresentPacing::AutoVsync);
    assert_eq!(c.alpha_mode_index, 0);
}

#[test]
fn vertex_layout_is_two_contiguous_attributes() {
    let l = vertex_layout();
    assert_eq!(l.stride, 24);
    assert_eq!(l.attributes.len(), 2);
    assert_eq!(l.attributes[0].location, 0);
    assert_eq!(l.attributes[0].offset, 0);
    assert_eq!(l.attributes[0].float_count, 3);
    assert_eq!(l.attributes[1].location, 1);
    assert_eq!(l.attributes[1].offset, 12);
    assert_eq!(l.attributes[1].float_count, 3);
}

#[test]
fn camera_binding_is_slot_zero_vertex_only_64_bytes() {
    let b = camera_binding();
    assert_eq!(b.slot, 0);
    assert_eq!(b.visibility, StageVisibility::VertexOnly);
    assert_eq!(b.size_bytes, 64);
}

#[test]
fn pipeline_fixed_function_state() {
    let format = fmt(9, true);
    let p = pipeline_config(format);
    assert_eq!(p.topology, Topology::TriangleList);
    assert_eq!(p.front_face, FrontFace::CounterClockwise);
    assert_eq!(p.cull_mode, CullMode::Back);
    assert_eq!(p.blend, BlendMode::Replace);
    assert_eq!(p.target_format, format);
    assert!(!p.depth_stencil);
    assert_eq!(p.sample_count, 1);
    assert_eq!(p.binding, camera_binding());
}

#[test]
fn clear_color_is_the_fixed_background() {
    let c = clear_color();
    assert_eq!(c.r, 157);
    assert_eq!(c.g, 0);
    assert_eq!(c.b, 3607);
    assert_eq!(c.a, 10_000);
}
