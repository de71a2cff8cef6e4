//! Library-wide laws, stated and proved once over the spec functions
//! that the builders' contracts use.

use vstd::prelude::*;
use crate::fixed::{spec_alpha, spec_combine};
use crate::geom::{from_bbox_aff, mul_aff, Rect, Transform};
use crate::gradient::{base_matches, gradient_aff, radial_matches, spread_tile};
use crate::model::{BaseGradient, DefKind, Defs, RadialGradient, SpreadMethod, Units};
use crate::paint::{ConicalShader, GradientShader, TileMode};
use crate::pattern::pattern_geometry_ok;
use crate::resolver::hits_cycle;

verus! {

/// Spread methods map onto tile modes exactly: Pad to Clamp, Reflect to
/// Mirror, Repeat to Repeat; the mapping is one-to-one, and as both
/// enumerations are closed there is no fourth value on either side.
pub proof fn lemma_spread_mapping_exact()
    ensures
        spread_tile(SpreadMethod::Pad) == TileMode::Clamp,
        spread_tile(SpreadMethod::Reflect) == TileMode::Mirror,
        spread_tile(SpreadMethod::Repeat) == TileMode::Repeat,
        forall|s1: SpreadMethod, s2: SpreadMethod|
            #[trigger] spread_tile(s1) == #[trigger] spread_tile(s2) ==> s1 == s2,
{
}

/// In ObjectBoundingBox units the gradient's shader transform is the
/// bounding-box mapping composed with the gradient's own transform,
/// the latter acting on points first; in user space it is the
/// gradient's transform alone.
pub proof fn lemma_object_bounding_box_composes(g: BaseGradient, bbox: Rect)
    ensures
        g.units == Units::ObjectBoundingBox ==> gradient_aff(g, bbox) == mul_aff(
            from_bbox_aff(bbox),
            g.transform.aff(),
        ),
        g.units != Units::ObjectBoundingBox ==> gradient_aff(g, bbox) == g.transform.aff(),
{
}

/// Every radial gradient resolves to a two-circle shader whose start
/// circle sits at the focal point with radius zero and whose end circle
/// has the gradient's radius, whatever the other coordinates are.
pub proof fn lemma_radial_circles_fixed(
    cs: ConicalShader,
    g: RadialGradient,
    opacity: i64,
    bbox: Rect,
)
    requires
        radial_matches(cs, g, opacity, bbox),
    ensures
        cs.start_radius == 0,
        cs.end_radius == g.r,
        cs.start_x == g.fx,
        cs.start_y == g.fy,
        cs.end_x == g.cx,
        cs.end_y == g.cy,
{
}

/// A built gradient shader preserves the stop count and order, keeps
/// every offset unmodified, and combines each stop's opacity with the
/// paint opacity before scaling it to an 8-bit alpha.
pub proof fn lemma_stop_list_preserved(
    b: GradientShader,
    g: BaseGradient,
    opacity: i64,
    bbox: Rect,
)
    requires
        base_matches(b, g, opacity, bbox),
    ensures
        b.colors@.len() == g.stops@.len(),
        b.positions@.len() == g.stops@.len(),
        forall|i: int| 0 <= i < g.stops@.len() ==> #[trigger] b.positions@[i] == g.stops@[i].offset,
        forall|i: int|
            0 <= i < g.stops@.len() ==> (#[trigger] b.colors@[i]).alpha as int == spec_alpha(
                spec_combine(g.stops@[i].opacity as int, opacity as int),
            ),
{
}

/// A pattern whose content references the pattern itself runs into the
/// cycle detector as soon as it is resolved, so the resolver leaves the
/// paint at its default instead of recursing without bound.
pub proof fn lemma_self_reference_hits_cycle(defs: Defs, id: u64, bbox: Rect, ts: Transform)
    requires
        (defs.kind_of(id) matches Some(DefKind::Tile(p)) && p.content@.contains(id)),
    ensures
        (match defs.kind_of(id) {
            Some(DefKind::Tile(p)) => pattern_geometry_ok(p, bbox, ts) ==> hits_cycle(
                defs,
                id,
                Seq::empty(),
                bbox,
                ts,
            ),
            _ => true,
        }),
{
    reveal_with_fuel(hits_cycle, 2);
    match defs.kind_of(id) {
        Some(DefKind::Tile(p)) => {
            if pattern_geometry_ok(p, bbox, ts) {
                let e = Seq::<u64>::empty();
                assert(!e.contains(id));
                let i = choose|i: int| 0 <= i < p.content@.len() && p.content@[i] == id;
                assert(e.push(id)[0] == id);
                assert(e.push(id).contains(id));
                assert(hits_cycle(defs, p.content@[i], e.push(id), bbox, ts));
            }
        },
        _ => {},
    }
}

} // verus!
