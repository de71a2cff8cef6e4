//! Pattern tiles: tile-rect placement, raster sizing, the transform the
//! tile content is drawn under, and the placement transform of the
//! resulting image shader. Every step that the backend would reject
//! (non-positive or oversized rasters, out-of-range arithmetic) aborts
//! softly: the caller leaves the paint unset.

use vstd::prelude::*;
use vstd::arithmetic::div_mod::{lemma_div_is_ordered, lemma_div_is_ordered_by_denominator};
use crate::fixed::{
    cmul, coord_valid, fmul, half_trunc, spec_fmul, tdiv, EXT_MAX, MAX_COORD, MUL_ARG, SCALE,
};
use crate::geom::{
    mul_aff, scale_aff, scale_factor_x, scale_factor_y, translate_aff, Affine, Rect, Transform,
};
use crate::model::{Pattern, Units};

verus! {

/// Micro-units squared: one device pixel per user unit at scale one.
pub const PX_SCALE: i64 = 1_000_000_000_000;

/// Half of `PX_SCALE`, for round-to-nearest pixel sizes.
pub const PX_HALF: i64 = 500_000_000_000;

/// The largest raster dimension the backend accepts.
pub const MAX_DIM: i64 = 2_147_483_647;

/// The tile rectangle in user space, before any range check: in
/// ObjectBoundingBox units the pattern rect is mapped by the bounding
/// box, else it is taken as given.
pub open spec fn tile_x_val(p: Pattern, bbox: Rect) -> int {
    if p.units == Units::ObjectBoundingBox {
        spec_fmul(p.rect.x as int, bbox.w as int) + bbox.x
    } else {
        p.rect.x as int
    }
}

pub open spec fn tile_y_val(p: Pattern, bbox: Rect) -> int {
    if p.units == Units::ObjectBoundingBox {
        spec_fmul(p.rect.y as int, bbox.h as int) + bbox.y
    } else {
        p.rect.y as int
    }
}

pub open spec fn tile_w_val(p: Pattern, bbox: Rect) -> int {
    if p.units == Units::ObjectBoundingBox {
        spec_fmul(p.rect.w as int, bbox.w as int)
    } else {
        p.rect.w as int
    }
}

pub open spec fn tile_h_val(p: Pattern, bbox: Rect) -> int {
    if p.units == Units::ObjectBoundingBox {
        spec_fmul(p.rect.h as int, bbox.h as int)
    } else {
        p.rect.h as int
    }
}

/// The tile rectangle stays within the coordinate range.
pub open spec fn tile_rect_ok(p: Pattern, bbox: Rect) -> bool {
    &&& -MAX_COORD <= tile_x_val(p, bbox) <= MAX_COORD
    &&& -MAX_COORD <= tile_y_val(p, bbox) <= MAX_COORD
    &&& -MAX_COORD <= tile_w_val(p, bbox) <= MAX_COORD
    &&& -MAX_COORD <= tile_h_val(p, bbox) <= MAX_COORD
}

/// One raster dimension: tile extent times scale factor, rounded to
/// the nearest device pixel.
pub open spec fn px_size(w: int, s: int) -> int {
    (w * s + PX_HALF) / (PX_SCALE as int)
}

/// The inverse of a positive scale factor, truncated.
pub open spec fn inv_scale(s: int) -> int {
    (PX_SCALE as int) / s
}

/// Computes the tile rectangle; `None` when it leaves the coordinate
/// range the library works in.
pub fn tile_rect(p: &Pattern, bbox: &Rect) -> (r: Option<Rect>)
    requires
        p.wf(),
        bbox.wf(),
    ensures
        r is Some <==> tile_rect_ok(*p, *bbox),
        r matches Some(rc) ==> {
            &&& rc.x == tile_x_val(*p, *bbox)
            &&& rc.y == tile_y_val(*p, *bbox)
            &&& rc.w == tile_w_val(*p, *bbox)
            &&& rc.h == tile_h_val(*p, *bbox)
            &&& rc.wf()
        },
{
    if p.units == Units::ObjectBoundingBox {
        proof {
            assert(p.rect.w * bbox.w >= 0 && p.rect.h * bbox.h >= 0) by (nonlinear_arith)
                requires p.rect.w >= 0, p.rect.h >= 0, bbox.w >= 0, bbox.h >= 0;
            assert(tdiv(p.rect.w * bbox.w, SCALE as int) >= 0) by {
                assert((p.rect.w * bbox.w) / (SCALE as int) >= 0) by (nonlinear_arith)
                    requires p.rect.w * bbox.w >= 0;
            }
            assert(tdiv(p.rect.h * bbox.h, SCALE as int) >= 0) by {
                assert((p.rect.h * bbox.h) / (SCALE as int) >= 0) by (nonlinear_arith)
                    requires p.rect.h * bbox.h >= 0;
            }
        }
        let x: i64 = fmul(p.rect.x, bbox.w) + bbox.x;
        let y: i64 = fmul(p.rect.y, bbox.h) + bbox.y;
        let w: i64 = fmul(p.rect.w, bbox.w);
        let h: i64 = fmul(p.rect.h, bbox.h);
        if -MAX_COORD <= x && x <= MAX_COORD && -MAX_COORD <= y && y <= MAX_COORD
            && -MAX_COORD <= w && w <= MAX_COORD && -MAX_COORD <= h && h <= MAX_COORD {
            Some(Rect { x, y, w, h })
        } else {
            None
        }
    } else {
        Some(p.rect)
    }
}

/// One raster dimension in device pixels, rounded to nearest.
pub fn px_of(w: i64, s: i64) -> (r: i64)
    requires
        0 <= w <= MAX_COORD,
        0 <= s <= MUL_ARG,
    ensures
        r == px_size(w as int, s as int),
        0 <= r <= 7_000_000_000_000,
{
    proof {
        assert(0 <= w * s <= 6_000_000_000_000_000_000_000_000int) by (nonlinear_arith)
            requires 0 <= w <= MAX_COORD, 0 <= s <= MUL_ARG;
        lemma_div_is_ordered(
            w * s + PX_HALF,
            6_000_500_000_000_000_000_000_000int,
            PX_SCALE as int,
        );
        assert((w * s + PX_HALF) / (PX_SCALE as int) >= 0) by (nonlinear_arith)
            requires w * s + PX_HALF >= 0;
    }
    let p: u128 = (w as u128) * (s as u128) + 500_000_000_000;
    let q: u128 = p / 1_000_000_000_000;
    q as i64
}

/// The inverse of a positive scale factor, truncated toward zero.
pub fn inv_of(s: i64) -> (r: i64)
    requires
        1 <= s <= MUL_ARG,
    ensures
        r == inv_scale(s as int),
        0 <= r <= PX_SCALE,
{
    proof {
        lemma_div_is_ordered_by_denominator(PX_SCALE as int, 1, s as int);
        assert((PX_SCALE as int) / (s as int) >= 0) by {
            lemma_div_is_ordered(0, PX_SCALE as int, s as int);
        }
    }
    PX_SCALE / s
}

/// The uniform scale that fits a view box into a tile of size
/// `(tw, th)`: the smaller of the two axis ratios.
pub open spec fn fit_scale(tw: int, th: int, vb: Rect) -> int {
    let fx = (tw * (SCALE as int)) / (vb.w as int);
    let fy = (th * (SCALE as int)) / (vb.h as int);
    if fx <= fy {
        fx
    } else {
        fy
    }
}

/// The x translation that centers the scaled view box in the tile.
pub open spec fn fit_tx(tw: int, vb: Rect, s: int) -> int {
    tdiv(tw - spec_fmul(vb.w as int, s), 2) - spec_fmul(vb.x as int, s)
}

/// The y translation that centers the scaled view box in the tile.
pub open spec fn fit_ty(th: int, vb: Rect, s: int) -> int {
    tdiv(th - spec_fmul(vb.h as int, s), 2) - spec_fmul(vb.y as int, s)
}

/// The aspect-preserving, centered view-box-to-tile transform.
pub open spec fn fit_aff(tw: int, th: int, vb: Rect) -> Affine {
    let s = fit_scale(tw, th, vb);
    Affine { a: s, b: 0, c: 0, d: s, e: fit_tx(tw, vb, s), f: fit_ty(th, vb, s) }
}

/// The transform the tile content is drawn under: device scale first;
/// then, with a view box, the view-box fit (the view box always takes
/// precedence); else, with ObjectBoundingBox content units, a scale by
/// the bounding box's size.
pub open spec fn surface_aff(p: Pattern, bbox: Rect, sx: int, sy: int, tw: int, th: int) -> Affine {
    let base = Affine { a: sx, b: 0, c: 0, d: sy, e: 0, f: 0 };
    match p.view_box {
        Some(vb) => mul_aff(base, fit_aff(tw, th, vb.rect)),
        None => {
            if p.content_units == Units::ObjectBoundingBox {
                scale_aff(base, bbox.w as int, bbox.h as int)
            } else {
                base
            }
        },
    }
}

/// The surface transform stays within range: the fit scale is a plain
/// coordinate and the composed translation entries fit the scalar range.
pub open spec fn surface_ok(p: Pattern, sx: int, sy: int, tw: int, th: int) -> bool {
    match p.view_box {
        Some(vb) => {
            let s = fit_scale(tw, th, vb.rect);
            &&& s <= MAX_COORD
            &&& -EXT_MAX <= spec_fmul(sx, fit_tx(tw, vb.rect, s)) <= EXT_MAX
            &&& -EXT_MAX <= spec_fmul(sy, fit_ty(th, vb.rect, s)) <= EXT_MAX
        },
        None => true,
    }
}

/// The placement transform of the image shader: the pattern's own
/// transform, then a translation to the tile origin, then the inverse
/// device scale, mapping raster pixels back to user space.
pub open spec fn placement_aff(p: Pattern, tx: int, ty: int, ix: int, iy: int) -> Affine {
    scale_aff(translate_aff(p.transform.aff(), tx, ty), ix, iy)
}

/// Pattern geometry is usable: the tile rect is in range, both raster
/// dimensions land in `[1, MAX_DIM]` pixels, and the surface transform
/// is in range. Anything else aborts softly to no paint.
pub open spec fn pattern_geometry_ok(p: Pattern, bbox: Rect, ts: Transform) -> bool {
    let tw = tile_w_val(p, bbox);
    let th = tile_h_val(p, bbox);
    let sx = scale_factor_x(ts);
    let sy = scale_factor_y(ts);
    &&& tile_rect_ok(p, bbox)
    &&& 1 <= px_size(tw, sx) <= MAX_DIM
    &&& 1 <= px_size(th, sy) <= MAX_DIM
    &&& surface_ok(p, sx, sy, tw, th)
}

/// What a built pattern shader holds: the exact raster size, surface
/// and placement transforms, and one resolved child per content id,
/// in order.
pub open spec fn pattern_server_matches(
    ps: crate::paint::PatternShader,
    p: Pattern,
    bbox: Rect,
    ts: Transform,
) -> bool {
    let tw = tile_w_val(p, bbox);
    let th = tile_h_val(p, bbox);
    let sx = scale_factor_x(ts);
    let sy = scale_factor_y(ts);
    &&& ps.width_px == px_size(tw, sx)
    &&& ps.height_px == px_size(th, sy)
    &&& ps.surface_transform.aff() == surface_aff(p, bbox, sx, sy, tw, th)
    &&& ps.placement_transform.aff() == placement_aff(
        p,
        tile_x_val(p, bbox),
        tile_y_val(p, bbox),
        inv_scale(sx),
        inv_scale(sy),
    )
    &&& ps.children@.len() == p.content@.len()
    &&& forall|i: int|
        0 <= i < p.content@.len() ==> (#[trigger] ps.children@[i]).id == p.content@[i]
}

/// Builds the surface transform; `None` when the view-box fit leaves
/// the range the library works in.
pub fn surface_transform(p: &Pattern, bbox: &Rect, sx: i64, sy: i64, tile: &Rect) -> (r: Option<
    Transform,
>)
    requires
        p.wf(),
        bbox.wf(),
        tile.wf(),
        0 <= sx <= MUL_ARG,
        0 <= sy <= MUL_ARG,
    ensures
        r is Some <==> surface_ok(*p, sx as int, sy as int, tile.w as int, tile.h as int),
        r matches Some(t) ==> t.aff() == surface_aff(
            *p,
            *bbox,
            sx as int,
            sy as int,
            tile.w as int,
            tile.h as int,
        ),
{
    let base = Transform { a: sx, b: 0, c: 0, d: sy, e: 0, f: 0 };
    match p.view_box {
        Some(vb) => {
            proof {
                assert(0 <= tile.w * (SCALE as int) <= 2_000_000_000_000_000_000int)
                    by (nonlinear_arith)
                    requires 0 <= tile.w <= MAX_COORD;
                assert(0 <= tile.h * (SCALE as int) <= 2_000_000_000_000_000_000int)
                    by (nonlinear_arith)
                    requires 0 <= tile.h <= MAX_COORD;
                assert((tile.w * (SCALE as int)) / (vb.rect.w as int) >= 0) by (nonlinear_arith)
                    requires tile.w * (SCALE as int) >= 0, vb.rect.w >= 1;
                assert((tile.h * (SCALE as int)) / (vb.rect.h as int) >= 0) by (nonlinear_arith)
                    requires tile.h * (SCALE as int) >= 0, vb.rect.h >= 1;
            }
            let fx: i64 = (tile.w * SCALE) / vb.rect.w;
            let fy: i64 = (tile.h * SCALE) / vb.rect.h;
            let s: i64 = if fx <= fy { fx } else { fy };
            if s > MAX_COORD {
                return None;
            }
            let tx: i64 = half_trunc(tile.w - fmul(vb.rect.w, s)) - fmul(vb.rect.x, s);
            let ty: i64 = half_trunc(tile.h - fmul(vb.rect.h, s)) - fmul(vb.rect.y, s);
            let ev = cmul(sx, tx);
            let fv = cmul(sy, ty);
            match (ev, fv) {
                (Some(e), Some(f)) => {
                    let t = Transform { a: fmul(sx, s), b: 0, c: 0, d: fmul(sy, s), e, f };
                    proof {
                        lemma_fmul_zero(sx as int);
                        lemma_fmul_zero(sy as int);
                        lemma_fmul_zero(s as int);
                        lemma_fmul_zero(tx as int);
                        lemma_fmul_zero(ty as int);
                    }
                    Some(t)
                },
                _ => None,
            }
        },
        None => {
            if p.content_units == Units::ObjectBoundingBox {
                Some(base.scale_axes(bbox.w, bbox.h))
            } else {
                Some(base)
            }
        },
    }
}

/// The fixed-point product with zero is zero.
proof fn lemma_fmul_zero(b: int)
    ensures
        spec_fmul(0, b) == 0,
        spec_fmul(b, 0) == 0,
{
    assert(0 * b == 0) by (nonlinear_arith);
    assert(b * 0 == 0) by (nonlinear_arith);
}

} // verus!
