//! The backend-side paint model: what resolution produces for one draw
//! call. Shaders are plain descriptors; rasterizing a pattern tile from
//! its descriptor is the rendering backend's job.

use vstd::prelude::*;
use crate::geom::Transform;

verus! {

/// Whether a paint fills or strokes.
#[derive(Clone, Copy, PartialEq, Eq, Structural, Debug)]
pub enum PaintStyle {
    Fill,
    Stroke,
}

/// Backend line cap.
#[derive(Clone, Copy, PartialEq, Eq, Structural, Debug)]
pub enum StrokeCap {
    Butt,
    Round,
    Square,
}

/// Backend line join.
#[derive(Clone, Copy, PartialEq, Eq, Structural, Debug)]
pub enum StrokeJoin {
    Miter,
    Round,
    Bevel,
}

/// How a shader samples outside its defined extent.
#[derive(Clone, Copy, PartialEq, Eq, Structural, Debug)]
pub enum TileMode {
    Clamp,
    Mirror,
    Repeat,
}

/// A color with an 8-bit alpha channel.
#[derive(Clone, Copy, PartialEq, Eq, Structural, Debug)]
pub struct Rgba {
    pub alpha: u8,
    pub red: u8,
    pub green: u8,
    pub blue: u8,
}

/// What linear and conical gradient shaders share: the stop colors and
/// positions, the tile mode, and the shader-space transform.
#[derive(Clone, PartialEq, Eq, Debug)]
pub struct GradientShader {
    pub colors: Vec<Rgba>,
    pub positions: Vec<i64>,
    pub tile_mode: TileMode,
    pub transform: Transform,
}

/// A linear gradient shader between two points.
#[derive(Clone, PartialEq, Eq, Debug)]
pub struct LinearShader {
    pub start_x: i64,
    pub start_y: i64,
    pub end_x: i64,
    pub end_y: i64,
    pub base: GradientShader,
}

/// A two-point conical gradient shader: a start circle and an end circle.
#[derive(Clone, PartialEq, Eq, Debug)]
pub struct ConicalShader {
    pub start_x: i64,
    pub start_y: i64,
    pub start_radius: i64,
    pub end_x: i64,
    pub end_y: i64,
    pub end_radius: i64,
    pub base: GradientShader,
}

/// One resolved paint server referenced by a pattern's content.
pub struct PatternChild {
    pub id: u64,
    pub shader: Option<Shader>,
}

/// A tiling image shader: the raster size of one tile in device pixels,
/// the transform under which the tile's content is drawn, the placement
/// transform that maps the raster back into user space, and the resolved
/// paint servers the content references.
pub struct PatternShader {
    pub width_px: i64,
    pub height_px: i64,
    pub surface_transform: Transform,
    pub placement_transform: Transform,
    pub children: Vec<PatternChild>,
}

/// A shader a paint can carry.
pub enum Shader {
    Linear(LinearShader),
    TwoPointConical(ConicalShader),
    Image(PatternShader),
}

/// A dash effect: the element lengths and the starting phase.
#[derive(Clone, PartialEq, Eq, Debug)]
pub struct DashEffect {
    pub array: Vec<i64>,
    pub phase: i64,
}

/// A backend paint object, fully configured for one draw call.
pub struct Paint {
    pub style: PaintStyle,
    pub color: Rgba,
    pub shader: Option<Shader>,
    pub stroke_cap: StrokeCap,
    pub stroke_join: StrokeJoin,
    pub stroke_miter: i64,
    pub stroke_width: i64,
    pub dash: Option<DashEffect>,
}

/// The backend's default miter limit (4.0) in micro-units.
pub const DEFAULT_MITER: i64 = 4_000_000;

/// The backend's default paint with the given style set: opaque black,
/// no shader, butt caps, miter joins with limit 4, hairline width, no dash.
pub open spec fn default_paint(style: PaintStyle) -> Paint {
    Paint {
        style: style,
        color: Rgba { alpha: 255, red: 0, green: 0, blue: 0 },
        shader: None,
        stroke_cap: StrokeCap::Butt,
        stroke_join: StrokeJoin::Miter,
        stroke_miter: DEFAULT_MITER,
        stroke_width: 0,
        dash: None,
    }
}

impl Paint {
    /// A fresh paint with only the style set.
    pub fn new(style: PaintStyle) -> (r: Paint)
        ensures
            r == default_paint(style),
    {
        Paint {
            style: style,
            color: Rgba { alpha: 255, red: 0, green: 0, blue: 0 },
            shader: None,
            stroke_cap: StrokeCap::Butt,
            stroke_join: StrokeJoin::Miter,
            stroke_miter: DEFAULT_MITER,
            stroke_width: 0,
            dash: None,
        }
    }
}

} // verus!
