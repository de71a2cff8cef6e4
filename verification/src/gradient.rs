//! Building gradient shaders: stop lists, spread-method mapping, and
//! coordinate-space composition.

use vstd::prelude::*;
use crate::fixed::{combine_opacity, opacity_to_alpha, opacity_valid, spec_alpha, spec_combine};
use crate::geom::{from_bbox_aff, mul_aff, Affine, Rect, Transform};
use crate::model::{BaseGradient, LinearGradient, RadialGradient, SpreadMethod, Units};
use crate::paint::{ConicalShader, GradientShader, LinearShader, Paint, Rgba, Shader, TileMode};

verus! {

/// The backend tile mode for a spread method: Pad maps to Clamp,
/// Reflect to Mirror, Repeat to Repeat, and nothing else exists.
pub open spec fn spread_tile(s: SpreadMethod) -> TileMode {
    match s {
        SpreadMethod::Pad => TileMode::Clamp,
        SpreadMethod::Reflect => TileMode::Mirror,
        SpreadMethod::Repeat => TileMode::Repeat,
    }
}

/// The shader-space transform of a gradient over `bbox`: in
/// ObjectBoundingBox units the bounding-box mapping composed with the
/// gradient's own transform (the latter acting on points first); in user
/// space the gradient's transform alone.
pub open spec fn gradient_aff(g: BaseGradient, bbox: Rect) -> Affine {
    if g.units == Units::ObjectBoundingBox {
        mul_aff(from_bbox_aff(bbox), g.transform.aff())
    } else {
        g.transform.aff()
    }
}

/// The combined alpha of one stop under a paint opacity.
pub open spec fn stop_alpha(stop_opacity: int, paint_opacity: int) -> int {
    spec_alpha(spec_combine(stop_opacity, paint_opacity))
}

/// What a built gradient shader must hold: the mapped tile mode, the
/// composed transform, and the stops in order with combined alphas and
/// unmodified offsets.
pub open spec fn base_matches(b: GradientShader, g: BaseGradient, opacity: i64, bbox: Rect) -> bool {
    &&& b.tile_mode == spread_tile(g.spread_method)
    &&& b.transform.aff() == gradient_aff(g, bbox)
    &&& b.colors@.len() == g.stops@.len()
    &&& b.positions@.len() == g.stops@.len()
    &&& forall|i: int|
        0 <= i < g.stops@.len() ==> #[trigger] b.positions@[i] == g.stops@[i].offset
    &&& forall|i: int|
        0 <= i < g.stops@.len() ==> {
            let c = #[trigger] b.colors@[i];
            &&& c.alpha as int == stop_alpha(g.stops@[i].opacity as int, opacity as int)
            &&& c.red == g.stops@[i].color.red
            &&& c.green == g.stops@[i].color.green
            &&& c.blue == g.stops@[i].color.blue
        }
}

/// What a built linear shader must hold: the gradient's endpoints,
/// passed through unmodified, over a matching base.
pub open spec fn linear_matches(ls: LinearShader, g: LinearGradient, opacity: i64, bbox: Rect) -> bool {
    &&& ls.start_x == g.x1
    &&& ls.start_y == g.y1
    &&& ls.end_x == g.x2
    &&& ls.end_y == g.y2
    &&& base_matches(ls.base, g.base, opacity, bbox)
}

/// What a built conical shader must hold: the start circle sits at the
/// focal point with radius zero, the end circle at `(cx, cy)` with
/// radius `r`, over a matching base.
pub open spec fn radial_matches(cs: ConicalShader, g: RadialGradient, opacity: i64, bbox: Rect) -> bool {
    &&& cs.start_x == g.fx
    &&& cs.start_y == g.fy
    &&& cs.start_radius == 0
    &&& cs.end_x == g.cx
    &&& cs.end_y == g.cy
    &&& cs.end_radius == g.r
    &&& base_matches(cs.base, g.base, opacity, bbox)
}

/// All paint fields except the shader are the same.
pub open spec fn unchanged_but_shader(a: Paint, b: Paint) -> bool {
    &&& b.style == a.style
    &&& b.color == a.color
    &&& b.stroke_cap == a.stroke_cap
    &&& b.stroke_join == a.stroke_join
    &&& b.stroke_miter == a.stroke_miter
    &&& b.stroke_width == a.stroke_width
    &&& b.dash == a.dash
}

/// Builds the shared part of a gradient shader: tile mode, composed
/// transform, and the stop lists. Stop order and count are preserved;
/// each output alpha is the stop's opacity multiplied by the paint
/// opacity; positions are the offsets, unmodified.
pub fn prepare_base_gradient(g: &BaseGradient, opacity: i64, bbox: &Rect) -> (r: GradientShader)
    requires
        g.wf(),
        opacity_valid(opacity),
        bbox.wf(),
    ensures
        base_matches(r, *g, opacity, *bbox),
{
    let tile_mode: TileMode = match g.spread_method {
        SpreadMethod::Pad => TileMode::Clamp,
        SpreadMethod::Reflect => TileMode::Mirror,
        SpreadMethod::Repeat => TileMode::Repeat,
    };

    let transform: Transform = if g.units == Units::ObjectBoundingBox {
        let ts = Transform::from_bbox(bbox);
        ts.append(&g.transform)
    } else {
        g.transform
    };

    let mut colors: Vec<Rgba> = Vec::new();
    let mut positions: Vec<i64> = Vec::new();
    let n: usize = g.stops.len();
    let mut i: usize = 0;
    while i < n
        invariant
            n == g.stops@.len(),
            i <= n,
            g.wf(),
            opacity_valid(opacity),
            colors@.len() == i,
            positions@.len() == i,
            forall|j: int| 0 <= j < i ==> #[trigger] positions@[j] == g.stops@[j].offset,
            forall|j: int|
                0 <= j < i ==> {
                    let c = #[trigger] colors@[j];
                    &&& c.alpha as int == stop_alpha(g.stops@[j].opacity as int, opacity as int)
                    &&& c.red == g.stops@[j].color.red
                    &&& c.green == g.stops@[j].color.green
                    &&& c.blue == g.stops@[j].color.blue
                },
        decreases n - i,
    {
        let stop = g.stops[i];
        proof {
            assert(g.stops@[i as int].wf());
        }
        let a: i64 = combine_opacity(stop.opacity, opacity);
        let alpha: u8 = opacity_to_alpha(a);
        colors.push(Rgba { alpha: alpha, red: stop.color.red, green: stop.color.green, blue: stop.color.blue });
        positions.push(stop.offset);
        i += 1;
    }

    GradientShader { colors, positions, tile_mode, transform }
}

/// Builds a linear gradient shader with start `(x1, y1)` and end `(x2, y2)`.
pub fn linear_shader(g: &LinearGradient, opacity: i64, bbox: &Rect) -> (r: LinearShader)
    requires
        g.wf(),
        opacity_valid(opacity),
        bbox.wf(),
    ensures
        linear_matches(r, *g, opacity, *bbox),
{
    LinearShader {
        start_x: g.x1,
        start_y: g.y1,
        end_x: g.x2,
        end_y: g.y2,
        base: prepare_base_gradient(&g.base, opacity, bbox),
    }
}

/// Builds the two-circle shader a radial gradient is adapted onto:
/// the start circle is the focal point with radius zero, the end circle
/// is `(cx, cy)` with radius `r`, whatever the other coordinates are.
pub fn radial_shader(g: &RadialGradient, opacity: i64, bbox: &Rect) -> (r: ConicalShader)
    requires
        g.wf(),
        opacity_valid(opacity),
        bbox.wf(),
        g.r > 0,
    ensures
        radial_matches(r, *g, opacity, *bbox),
{
    ConicalShader {
        start_x: g.fx,
        start_y: g.fy,
        start_radius: 0,
        end_x: g.cx,
        end_y: g.cy,
        end_radius: g.r,
        base: prepare_base_gradient(&g.base, opacity, bbox),
    }
}

/// Sets a linear gradient shader on the paint; everything else is kept.
pub fn prepare_linear(g: &LinearGradient, opacity: i64, bbox: Rect, paint: &mut Paint)
    requires
        g.wf(),
        opacity_valid(opacity),
        bbox.wf(),
    ensures
        unchanged_but_shader(*old(paint), *final(paint)),
        (match final(paint).shader {
            Some(Shader::Linear(ls)) => linear_matches(ls, *g, opacity, bbox),
            _ => false,
        }),
{
    let sh = linear_shader(g, opacity, &bbox);
    paint.shader = Some(Shader::Linear(sh));
}

/// Sets a two-point conical gradient shader on the paint. A radius of
/// zero or less is degenerate: the paint is left exactly as it was.
pub fn prepare_radial(g: &RadialGradient, opacity: i64, bbox: Rect, paint: &mut Paint)
    requires
        g.wf(),
        opacity_valid(opacity),
        bbox.wf(),
    ensures
        g.r <= 0 ==> *final(paint) == *old(paint),
        g.r > 0 ==> unchanged_but_shader(*old(paint), *final(paint)),
        g.r > 0 ==> (match final(paint).shader {
            Some(Shader::TwoPointConical(cs)) => radial_matches(cs, *g, opacity, bbox),
            _ => false,
        }),
{
    if g.r <= 0 {
        return;
    }
    let sh = radial_shader(g, opacity, &bbox);
    paint.shader = Some(Shader::TwoPointConical(sh));
}

} // verus!
