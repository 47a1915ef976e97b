//! Surface negotiation and fixed-function pipeline configuration.
//!
//! The host hands the library the facts it learned from the GPU — the
//! texture formats the surface supports (each tagged with whether it is
//! sRGB-encoded), how many alpha compositing modes were reported, the
//! window's pixel size — and the functions here decide the surface
//! configuration and the complete fixed-function state of the one render
//! pipeline the session builds.

use vstd::prelude::*;

verus! {

/// One texture format the surface reports.  `code` is an opaque tag the
/// host assigns (its position in the reported list is a natural choice);
/// `srgb` says whether the format is sRGB-encoded.
#[derive(Clone, Copy, Debug, PartialEq, Eq, Structural)]
pub struct SurfaceFormat {
    pub code: u32,
    pub srgb: bool,
}

/// How presentation is paced.  The session always asks for automatic
/// vertical sync, the most portable choice, rather than leaving the pacing
/// to whatever the surface happens to default to.
#[derive(Clone, Copy, Debug, PartialEq, Eq, Structural)]
pub enum PresentPacing {
    AutoVsync,
}

/// The negotiated surface configuration.
#[derive(Clone, Copy, Debug, PartialEq, Eq, Structural)]
pub struct SurfaceConfig {
    pub format: SurfaceFormat,
    pub width: u32,
    pub height: u32,
    pub present: PresentPacing,
    /// Index into the reported alpha compositing modes; always the first.
    pub alpha_mode_index: u32,
}

/// Why surface negotiation can fail; every case is fatal at startup.
#[derive(Clone, Copy, Debug, PartialEq, Eq, Structural)]
pub enum ConfigError {
    NoFormats,
    NoAlphaModes,
    ZeroDimension,
}

/// Some reported format is sRGB-encoded.
pub open spec fn has_srgb(formats: Seq<SurfaceFormat>) -> bool {
    exists|i: int| 0 <= i < formats.len() && formats[i].srgb
}

/// The format the session settles on: the first sRGB-encoded format the
/// surface reports, or the first reported format when none is.
pub open spec fn is_chosen_format(formats: Seq<SurfaceFormat>, f: SurfaceFormat) -> bool {
    if has_srgb(formats) {
        exists|i: int|
            0 <= i < formats.len() && formats[i].srgb && f == formats[i] && (forall|j: int|
                0 <= j < i ==> !formats[j].srgb)
    } else {
        formats.len() > 0 && f == formats[0]
    }
}

/// Pick the surface format: the first sRGB-encoded one if the surface
/// reports any, otherwise the first reported format; `None` only when the
/// surface reports no format at all.
pub fn choose_surface_format(formats: &Vec<SurfaceFormat>) -> (r: Option<SurfaceFormat>)
    ensures
        r is Some <==> formats@.len() > 0,
        match r {
            Some(f) => is_chosen_format(formats@, f),
            None => true,
        },
{
    let mut i: usize = 0;
    while i < formats.len()
        invariant
            0 <= i <= formats@.len(),
            forall|j: int| 0 <= j < i ==> !formats@[j].srgb,
        decreases formats@.len() - i,
    {
        if formats[i].srgb {
            return Some(formats[i]);
        }
        i += 1;
    }
    if formats.len() > 0 {
        Some(formats[0])
    } else {
        None
    }
}

/// Negotiate the surface configuration from what the surface reported and
/// the current window size.  Succeeds exactly when the surface reported at
/// least one format and one alpha mode and neither dimension is zero; each
/// error names the first missing ingredient, in that order.
pub fn negotiate_surface_config(
    formats: &Vec<SurfaceFormat>,
    alpha_mode_count: usize,
    width: u32,
    height: u32,
) -> (r: Result<SurfaceConfig, ConfigError>)
    ensures
        r is Ok <==> formats@.len() > 0 && alpha_mode_count > 0 && width > 0 && height > 0,
        match r {
            Ok(c) => {
                &&& is_chosen_format(formats@, c.format)
                &&& c.width == width
                &&& c.height == height
                &&& c.present == PresentPacing::AutoVsync
                &&& c.alpha_mode_index == 0
            },
            Err(e) => {
                &&& (e == ConfigError::NoFormats <==> formats@.len() == 0)
                &&& (e == ConfigError::NoAlphaModes <==> formats@.len() > 0
                    && alpha_mode_count == 0)
                &&& (e == ConfigError::ZeroDimension <==> formats@.len() > 0
                    && alpha_mode_count > 0 && (width == 0 || height == 0))
            },
        },
{
    let format = match choose_surface_format(formats) {
        Some(f) => f,
        None => {
            return Err(ConfigError::NoFormats);
        },
    };
    if alpha_mode_count == 0 {
        return Err(ConfigError::NoAlphaModes);
    }
    if width == 0 || height == 0 {
        return Err(ConfigError::ZeroDimension);
    }
    Ok(
        SurfaceConfig {
            format,
            width,
            height,
            present: PresentPacing::AutoVsync,
            alpha_mode_index: 0,
        },
    )
}

/// One vertex attribute: its shader location, byte offset inside the
/// vertex, and number of 32-bit float components.
#[derive(Clone, Copy, Debug, PartialEq, Eq, Structural)]
pub struct VertexAttributeDesc {
    pub location: u32,
    pub offset: u32,
    pub float_count: u32,
}

/// The interleaved vertex buffer layout.
pub struct VertexLayout {
    pub stride: u32,
    pub attributes: Vec<VertexAttributeDesc>,
}

impl VertexLayout {
    /// The attributes tile the vertex: the first starts at offset zero,
    /// each next one starts where the previous ends, and the stride is the
    /// end of the last (a 32-bit float taking four bytes).
    pub open spec fn contiguous(self) -> bool {
        &&& self.attributes@.len() > 0
        &&& self.attributes@[0].offset == 0
        &&& forall|i: int|
            0 < i < self.attributes@.len()
                ==> (#[trigger] self.attributes@[i]).offset
                == self.attributes@[i - 1].offset + 4 * self.attributes@[i - 1].float_count
        &&& self.stride == self.attributes@.last().offset + 4 * self.attributes@.last().float_count
    }
}

/// The layout the pipeline consumes: position (three floats) at shader
/// location 0 and offset 0, color (three floats) at location 1 immediately
/// after it, one vertex every 24 bytes.
pub fn vertex_layout() -> (l: VertexLayout)
    ensures
        l.stride == 24,
        l.attributes@.len() == 2,
        l.attributes@[0] == (VertexAttributeDesc { location: 0, offset: 0, float_count: 3 }),
        l.attributes@[1] == (VertexAttributeDesc { location: 1, offset: 12, float_count: 3 }),
        l.contiguous(),
{
    let attributes: Vec<VertexAttributeDesc> = vec![
        VertexAttributeDesc { location: 0, offset: 0, float_count: 3 },
        VertexAttributeDesc { location: 1, offset: 12, float_count: 3 },
    ];
    let l = VertexLayout { stride: 24, attributes };
    proof {
        assert(l.attributes@.last() == l.attributes@[1]);
    }
    l
}

/// Which shader stages see a binding.
#[derive(Clone, Copy, Debug, PartialEq, Eq, Structural)]
pub enum StageVisibility {
    VertexOnly,
    FragmentOnly,
    VertexAndFragment,
}

/// A uniform-buffer binding slot as the pipeline layout declares it.
#[derive(Clone, Copy, Debug, PartialEq, Eq, Structural)]
pub struct BindingDesc {
    pub slot: u32,
    pub visibility: StageVisibility,
    pub size_bytes: u32,
}

/// The camera binding: slot 0, visible to the vertex stage only, sized for
/// exactly one 4x4 matrix of 32-bit floats (64 bytes).
pub fn camera_binding() -> (b: BindingDesc)
    ensures
        b.slot == 0,
        b.visibility == StageVisibility::VertexOnly,
        b.size_bytes == 64,
        b.size_bytes == 4 * 4 * 4,
{
    BindingDesc { slot: 0, visibility: StageVisibility::VertexOnly, size_bytes: 64 }
}

/// Primitive assembly of the one pipeline.
#[derive(Clone, Copy, Debug, PartialEq, Eq, Structural)]
pub enum Topology {
    TriangleList,
}

/// Which winding is the front of a triangle.
#[derive(Clone, Copy, Debug, PartialEq, Eq, Structural)]
pub enum FrontFace {
    CounterClockwise,
}

/// Which faces are culled.
#[derive(Clone, Copy, Debug, PartialEq, Eq, Structural)]
pub enum CullMode {
    Back,
    Off,
}

/// How rasterized fragments are combined with the target.
#[derive(Clone, Copy, Debug, PartialEq, Eq, Structural)]
pub enum BlendMode {
    Replace,
}

/// The complete fixed-function state of the render pipeline.
#[derive(Clone, Copy, Debug, PartialEq, Eq, Structural)]
pub struct PipelineConfig {
    pub topology: Topology,
    pub front_face: FrontFace,
    pub cull_mode: CullMode,
    pub blend: BlendMode,
    pub target_format: SurfaceFormat,
    pub depth_stencil: bool,
    pub sample_count: u32,
    pub binding: BindingDesc,
}

impl PipelineConfig {
    /// The fixed-function state the design calls for: triangle list,
    /// counter-clockwise front faces, back-face culling, straight replace
    /// blending, no depth/stencil buffer, a single sample, the camera
    /// binding at slot 0, and the given target format.
    pub open spec fn is_session_pipeline(self, format: SurfaceFormat) -> bool {
        &&& self.topology == Topology::TriangleList
        &&& self.front_face == FrontFace::CounterClockwise
        &&& self.cull_mode == CullMode::Back
        &&& self.blend == BlendMode::Replace
        &&& self.target_format == format
        &&& !self.depth_stencil
        &&& self.sample_count == 1
        &&& self.binding == (BindingDesc {
            slot: 0,
            visibility: StageVisibility::VertexOnly,
            size_bytes: 64,
        })
    }
}

/// Build the pipeline configuration for the negotiated surface format.
pub fn pipeline_config(format: SurfaceFormat) -> (p: PipelineConfig)
    ensures
        p.is_session_pipeline(format),
{
    PipelineConfig {
        topology: Topology::TriangleList,
        front_face: FrontFace::CounterClockwise,
        cull_mode: CullMode::Back,
        blend: BlendMode::Replace,
        target_format: format,
        depth_stencil: false,
        sample_count: 1,
        binding: camera_binding(),
    }
}

/// An opaque color with channels in ten-thousandths of full intensity.
#[derive(Clone, Copy, Debug, PartialEq, Eq, Structural)]
pub struct ClearColor {
    pub r: u32,
    pub g: u32,
    pub b: u32,
    pub a: u32,
}

/// The fixed background every render pass clears to: the dark violet
/// (0.0157, 0, 0.3607, 1) in ten-thousandths.
pub open spec fn background_color() -> ClearColor {
    ClearColor { r: 157, g: 0, b: 3607, a: 10_000 }
}

/// The background color as a value the host can hand to the render pass.
pub fn clear_color() -> (c: ClearColor)
    ensures
        c == background_color(),
{
    ClearColor { r: 157, g: 0, b: 3607, a: 10_000 }
}

} // verus!
