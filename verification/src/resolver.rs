//! The paint resolver: dispatches a fill or stroke specification to the
//! gradient builder or the pattern renderer and returns a configured
//! paint. Dangling references, non-paint-server targets, degenerate
//! geometry and reference cycles all resolve to the default paint;
//! nothing here raises an error.
//!
//! Cycle safety: a set of in-progress reference ids travels down the
//! recursive call chain. A pattern whose id is already in progress
//! resolves to no paint, and the whole chain that contains the repeat
//! fails softly. Termination is proved: every recursion step adds one
//! table id to the in-progress set, which the table bounds.

use vstd::prelude::*;
use vstd::set::axiom_set_remove_len;
use vstd::set_lib::lemma_len_subset;
use vstd::seq_lib::seq_to_set_is_finite;
use crate::fixed::{opacity_to_alpha, opacity_valid, spec_alpha, SCALE};
use crate::geom::{Rect, Transform};
use crate::gradient::{
    linear_matches, linear_shader, radial_matches, radial_shader,
};
use crate::model::{
    lemma_lookup_defined, DefKind, Defs, Fill, LineCap, LineJoin, PaintRef, Stroke,
};
use crate::paint::{
    default_paint, DashEffect, Paint, PaintStyle, PatternChild, PatternShader, Rgba, Shader,
    StrokeCap, StrokeJoin,
};
use crate::pattern::{
    pattern_geometry_ok, pattern_server_matches, px_of, px_size, surface_transform, tile_rect,
    MAX_DIM,
};

verus! {

/// The outcome of resolving one paint-server reference.
pub enum Resolution {
    /// The reference chain ran into an id that is already being resolved.
    Cycle,
    /// Dangling id, non-server target, or degenerate geometry: no paint.
    NoPaint,
    /// A shader, plus an alpha override for translucent patterns.
    Server(ResolvedServer),
}

/// A successfully resolved paint server.
pub struct ResolvedServer {
    pub shader: Shader,
    pub alpha: Option<u8>,
}

/// Whether the table defines `id` at all.
pub open spec fn id_defined(defs: Defs, id: u64) -> bool {
    exists|j: int| 0 <= j < defs.entries@.len() && (#[trigger] defs.entries@[j]).id == id
}

/// The in-progress set is duplicate-free and only holds table ids.
pub open spec fn visited_ok(defs: Defs, visited: Seq<u64>) -> bool {
    &&& visited.no_duplicates()
    &&& forall|k: int| 0 <= k < visited.len() ==> id_defined(defs, #[trigger] visited[k])
}

/// Whether resolving `id` with the given in-progress set runs into a
/// repeated reference: the id names a pattern that either is itself in
/// progress, or has usable geometry and a content reference that runs
/// into a repeat below it. (A pattern whose geometry is degenerate
/// aborts before its content is resolved, so nothing below it counts.)
pub open spec fn hits_cycle(defs: Defs, id: u64, visited: Seq<u64>, bbox: Rect, ts: Transform) -> bool
    decreases defs.id_seq().to_set().difference(visited.to_set()).len()
        via hits_cycle_decreases
{
    match defs.kind_of(id) {
        Some(DefKind::Tile(p)) => {
            if visited.contains(id) {
                true
            } else if !pattern_geometry_ok(p, bbox, ts) {
                false
            } else {
                exists|i: int|
                    0 <= i < p.content@.len() && hits_cycle(
                        defs,
                        p.content@[i],
                        visited.push(id),
                        bbox,
                        ts,
                    )
            }
        },
        _ => false,
    }
}

#[via_fn]
proof fn hits_cycle_decreases(defs: Defs, id: u64, visited: Seq<u64>, bbox: Rect, ts: Transform) {
    match defs.kind_of(id) {
        Some(DefKind::Tile(p)) => {
            if !visited.contains(id) && pattern_geometry_ok(p, bbox, ts) {
                lemma_in_progress_measure(defs, id, visited);
            }
        },
        _ => {},
    }
}

/// Marking a defined, not-yet-visited id as in progress strictly
/// shrinks the set of table ids still available to the chain.
proof fn lemma_in_progress_measure(defs: Defs, id: u64, visited: Seq<u64>)
    requires
        defs.kind_of(id) is Some,
        !visited.contains(id),
    ensures
        defs.id_seq().to_set().difference(visited.push(id).to_set()).len() < defs.id_seq().to_set().difference(
            visited.to_set(),
        ).len(),
{
    broadcast use seq_to_set_is_finite;

    let ids = defs.id_seq().to_set();
    let v1 = visited.to_set();
    let v2 = visited.push(id).to_set();
    lemma_lookup_defined(defs.entries@, id);
    let j = choose|j: int| 0 <= j < defs.entries@.len() && (#[trigger] defs.entries@[j]).id == id;
    assert(defs.id_seq()[j] == id);
    assert(defs.id_seq().contains(id));
    assert(v2 =~= v1.insert(id)) by {
        assert forall|x: u64| #[trigger] visited.push(id).contains(x)
            implies visited.contains(x) || x == id by {
            let k = choose|k: int|
                0 <= k < visited.push(id).len() && visited.push(id)[k] == x;
            if k < visited.len() {
                assert(visited[k] == x);
            }
        }
        assert forall|x: u64| visited.contains(x) || x == id
            implies #[trigger] visited.push(id).contains(x) by {
            if visited.contains(x) {
                let k = choose|k: int| 0 <= k < visited.len() && visited[k] == x;
                assert(visited.push(id)[k] == x);
            } else {
                assert(visited.push(id)[visited.len() as int] == x);
            }
        }
    }
    let d1 = ids.difference(v1);
    let d2 = ids.difference(v2);
    assert(d2 =~= d1.remove(id));
    assert(d1.contains(id));
    assert(d1.subset_of(ids));
    lemma_len_subset(d1, ids);
    axiom_set_remove_len(d1, id);
}

/// Whether resolving `id` under the given in-progress set yields a
/// shader: a linear gradient always does, a radial gradient when its
/// radius is positive, a pattern when it is not in progress, its
/// geometry is usable, and no reference below it repeats.
pub open spec fn resolves_to_server(
    defs: Defs,
    id: u64,
    visited: Seq<u64>,
    bbox: Rect,
    ts: Transform,
) -> bool {
    match defs.kind_of(id) {
        Some(DefKind::Linear(_)) => true,
        Some(DefKind::Radial(rg)) => rg.r > 0,
        Some(DefKind::Tile(p)) => !visited.contains(id) && pattern_geometry_ok(p, bbox, ts)
            && !hits_cycle(defs, id, visited, bbox, ts),
        _ => false,
    }
}

/// A duplicate-free sequence of table ids is no longer than the table.
pub proof fn lemma_visited_bound(defs: Defs, visited: Seq<u64>)
    requires
        visited_ok(defs, visited),
    ensures
        visited.len() <= defs.entries@.len(),
{
    broadcast use seq_to_set_is_finite;

    let ids = defs.id_seq();
    assert(ids.len() == defs.entries@.len());
    visited.unique_seq_to_set();
    ids.lemma_cardinality_of_set();
    assert(visited.to_set().subset_of(ids.to_set())) by {
        assert forall|x: u64| visited.to_set().contains(x) implies ids.to_set().contains(x) by {
            assert(visited.contains(x));
            let k = choose|k: int| 0 <= k < visited.len() && visited[k] == x;
            assert(id_defined(defs, visited[k]));
            let j = choose|j: int|
                0 <= j < defs.entries@.len() && (#[trigger] defs.entries@[j]).id == x;
            assert(ids[j] == x);
            assert(ids.contains(x));
        }
    }
    lemma_len_subset(visited.to_set(), ids.to_set());
}

/// Whether the in-progress list holds `id`.
fn contains_id(v: &Vec<u64>, id: u64) -> (r: bool)
    ensures
        r <==> v@.contains(id),
{
    let n: usize = v.len();
    let mut i: usize = 0;
    while i < n
        invariant
            n == v@.len(),
            i <= n,
            forall|j: int| 0 <= j < i ==> v@[j] != id,
        decreases n - i,
    {
        if v[i] == id {
            return true;
        }
        i += 1;
    }
    false
}

/// A copy of the in-progress list with `id` appended.
fn push_id(v: &Vec<u64>, id: u64) -> (r: Vec<u64>)
    ensures
        r@ == v@.push(id),
{
    let n: usize = v.len();
    let mut r: Vec<u64> = Vec::new();
    let mut i: usize = 0;
    while i < n
        invariant
            n == v@.len(),
            i <= n,
            r@ == v@.subrange(0, i as int),
        decreases n - i,
    {
        r.push(v[i]);
        proof {
            assert(r@ =~= v@.subrange(0, i + 1 as int));
        }
        i += 1;
    }
    r.push(id);
    proof {
        assert(v@.subrange(0, n as int) =~= v@);
        assert(r@ =~= v@.push(id));
    }
    r
}

/// Resolves the definition behind a linked id into a shader.
///
/// Exactly one of these happens: a dangling or non-server id, a radial
/// gradient with a non-positive radius, or degenerate pattern geometry
/// yields no paint; a pattern whose id is already in progress yields a
/// cycle; otherwise a shader is built as the definition's kind demands.
pub fn resolve_link(
    defs: &Defs,
    id: u64,
    opacity: i64,
    bbox: &Rect,
    global_ts: &Transform,
    visited: &Vec<u64>,
) -> (r: Resolution)
    requires
        defs.wf(),
        opacity_valid(opacity),
        bbox.wf(),
        global_ts.valid(),
        visited_ok(*defs, visited@),
    ensures
        (match defs.kind_of(id) {
            None => r is NoPaint,
            Some(DefKind::Other) => r is NoPaint,
            Some(DefKind::Linear(lg)) => r matches Resolution::Server(s) && s.alpha is None
                && (match s.shader {
                Shader::Linear(ls) => linear_matches(ls, lg, opacity, *bbox),
                _ => false,
            }),
            Some(DefKind::Radial(rg)) => {
                if rg.r <= 0 {
                    r is NoPaint
                } else {
                    r matches Resolution::Server(s) && s.alpha is None && (match s.shader {
                        Shader::TwoPointConical(cs) => radial_matches(cs, rg, opacity, *bbox),
                        _ => false,
                    })
                }
            },
            Some(DefKind::Tile(p)) => {
                &&& (r is Cycle <==> hits_cycle(*defs, id, visited@, *bbox, *global_ts))
                &&& (!visited@.contains(id) ==> {
                    &&& (r is NoPaint <==> !pattern_geometry_ok(p, *bbox, *global_ts))
                    &&& (match r {
                        Resolution::Server(s) => server_matches(s, p, opacity, *bbox, *global_ts),
                        _ => true,
                    })
                })
            },
        }),
        r is Cycle ==> (defs.kind_of(id) matches Some(DefKind::Tile(_))),
        r is Server <==> resolves_to_server(*defs, id, visited@, *bbox, *global_ts),
    decreases defs.entries@.len() - visited@.len(), 0int,
{
    proof {
        lemma_visited_bound(*defs, visited@);
    }
    let found = defs.find(id);
    match found {
        None => Resolution::NoPaint,
        Some(i) => {
            match &defs.entries[i].kind {
                DefKind::Linear(lg) => {
                    let sh = linear_shader(lg, opacity, bbox);
                    Resolution::Server(ResolvedServer { shader: Shader::Linear(sh), alpha: None })
                },
                DefKind::Radial(rg) => {
                    if rg.r <= 0 {
                        Resolution::NoPaint
                    } else {
                        let sh = radial_shader(rg, opacity, bbox);
                        Resolution::Server(
                            ResolvedServer { shader: Shader::TwoPointConical(sh), alpha: None },
                        )
                    }
                },
                DefKind::Tile(p) => {
                    if contains_id(visited, id) {
                        Resolution::Cycle
                    } else {
                        let v2 = push_id(visited, id);
                        proof {
                            assert(id_defined(*defs, id)) by {
                                assert(defs.entries@[i as int].id == id);
                            }
                            assert(v2@.no_duplicates()) by {
                                assert forall|a: int, b: int|
                                    0 <= a < v2@.len() && 0 <= b < v2@.len() && a != b
                                    implies v2@[a] != v2@[b] by {
                                    if a < visited@.len() && b < visited@.len() {
                                    } else if b == visited@.len() {
                                        if v2@[a] == id {
                                            assert(visited@.contains(id)) by {
                                                assert(visited@[a] == id);
                                            }
                                        }
                                    } else {
                                        if v2@[b] == id {
                                            assert(visited@.contains(id)) by {
                                                assert(visited@[b] == id);
                                            }
                                        }
                                    }
                                }
                            }
                            assert(visited_ok(*defs, v2@));
                            lemma_visited_bound(*defs, v2@);
                        }
                        prepare_pattern(defs, p, opacity, bbox, global_ts, &v2)
                    }
                },
                DefKind::Other => Resolution::NoPaint,
            }
        },
    }
}

/// What a resolved pattern server holds: an image shader with the
/// pattern's exact geometry, and the paint-opacity override that is
/// applied once over the whole tile.
pub open spec fn server_matches(
    s: ResolvedServer,
    p: crate::model::Pattern,
    opacity: i64,
    bbox: Rect,
    ts: Transform,
) -> bool {
    &&& (match s.shader {
        Shader::Image(ps) => pattern_server_matches(ps, p, bbox, ts),
        _ => false,
    })
    &&& (opacity == SCALE ==> s.alpha is None)
    &&& (opacity != SCALE ==> (s.alpha matches Some(a) && a as int == spec_alpha(opacity as int)))
}

/// Renders a pattern into a tile descriptor: tile rect, raster size,
/// surface transform, placement transform, and the resolved paint
/// servers of the pattern's content. Degenerate geometry yields no
/// paint; a repeated reference anywhere below yields a cycle.
#[verifier::loop_isolation(false)]
pub fn prepare_pattern(
    defs: &Defs,
    p: &crate::model::Pattern,
    opacity: i64,
    bbox: &Rect,
    global_ts: &Transform,
    visited: &Vec<u64>,
) -> (r: Resolution)
    requires
        defs.wf(),
        p.wf(),
        opacity_valid(opacity),
        bbox.wf(),
        global_ts.valid(),
        visited_ok(*defs, visited@),
    ensures
        r is NoPaint <==> !pattern_geometry_ok(*p, *bbox, *global_ts),
        r is Cycle <==> pattern_geometry_ok(*p, *bbox, *global_ts) && (exists|i: int|
            0 <= i < p.content@.len() && hits_cycle(
                *defs,
                p.content@[i],
                visited@,
                *bbox,
                *global_ts,
            )),
        r matches Resolution::Server(s) ==> server_matches(s, *p, opacity, *bbox, *global_ts),
        r matches Resolution::Server(s) ==> (match s.shader {
            Shader::Image(ps) => forall|j: int|
                0 <= j < ps.children@.len() ==> ((#[trigger] ps.children@[j]).shader is Some
                    <==> resolves_to_server(*defs, p.content@[j], visited@, *bbox, *global_ts)),
            _ => true,
        }),
    decreases defs.entries@.len() - visited@.len(), 1int,
{
    proof {
        lemma_visited_bound(*defs, visited@);
    }
    let tile = match tile_rect(p, bbox) {
        None => {
            return Resolution::NoPaint;
        },
        Some(t) => t,
    };
    let (sx, sy) = global_ts.get_scale();
    let wpx = px_of(tile.w, sx);
    let hpx = px_of(tile.h, sy);
    if wpx < 1 || wpx > MAX_DIM || hpx < 1 || hpx > MAX_DIM {
        return Resolution::NoPaint;
    }
    let surf = match surface_transform(p, bbox, sx, sy, &tile) {
        None => {
            return Resolution::NoPaint;
        },
        Some(t) => t,
    };
    proof {
        assert(sx >= 1) by {
            if sx == 0 {
                assert(tile.w * (sx as int) == 0) by (nonlinear_arith)
                    requires sx as int == 0;
                assert(px_size(tile.w as int, 0) == 0);
            }
        }
        assert(sy >= 1) by {
            if sy == 0 {
                assert(tile.h * (sy as int) == 0) by (nonlinear_arith)
                    requires sy as int == 0;
                assert(px_size(tile.h as int, 0) == 0);
            }
        }
    }
    let ix = crate::pattern::inv_of(sx);
    let iy = crate::pattern::inv_of(sy);
    let placement = p.transform.translate(tile.x, tile.y).scale_axes(ix, iy);

    let mut children: Vec<PatternChild> = Vec::new();
    let n: usize = p.content.len();
    let mut i: usize = 0;
    while i < n
        invariant
            n == p.content@.len(),
            i <= n,
            defs.wf(),
            bbox.wf(),
            global_ts.valid(),
            visited_ok(*defs, visited@),
            children@.len() == i,
            forall|j: int| 0 <= j < i ==> (#[trigger] children@[j]).id == p.content@[j],
            forall|j: int|
                0 <= j < i ==> ((#[trigger] children@[j]).shader is Some <==> resolves_to_server(
                    *defs,
                    p.content@[j],
                    visited@,
                    *bbox,
                    *global_ts,
                )),
            forall|j: int|
                0 <= j < i ==> !hits_cycle(*defs, #[trigger] p.content@[j], visited@, *bbox, *global_ts),
        decreases n - i,
    {
        proof {
            lemma_visited_bound(*defs, visited@);
        }
        let cid = p.content[i];
        let res = resolve_link(defs, cid, SCALE, bbox, global_ts, visited);
        match res {
            Resolution::Cycle => {
                return Resolution::Cycle;
            },
            Resolution::NoPaint => {
                children.push(PatternChild { id: cid, shader: None });
            },
            Resolution::Server(s) => {
                children.push(PatternChild { id: cid, shader: Some(s.shader) });
            },
        }
        i += 1;
    }

    let alpha: Option<u8> = if opacity != SCALE {
        Some(opacity_to_alpha(opacity))
    } else {
        None
    };
    Resolution::Server(
        ResolvedServer {
            shader: Shader::Image(
                PatternShader {
                    width_px: wpx,
                    height_px: hpx,
                    surface_transform: surf,
                    placement_transform: placement,
                    children,
                },
            ),
            alpha,
        },
    )
}

/// The backend cap for a stroke line cap; a one-to-one mapping.
pub open spec fn cap_of(c: LineCap) -> StrokeCap {
    match c {
        LineCap::Butt => StrokeCap::Butt,
        LineCap::Round => StrokeCap::Round,
        LineCap::Square => StrokeCap::Square,
    }
}

/// The backend join for a stroke line join; a one-to-one mapping.
pub open spec fn join_of(j: LineJoin) -> StrokeJoin {
    match j {
        LineJoin::Miter => StrokeJoin::Miter,
        LineJoin::Round => StrokeJoin::Round,
        LineJoin::Bevel => StrokeJoin::Bevel,
    }
}

/// The color and shader channels of a paint that carries a resolved
/// pattern: the image shader with the pattern's geometry, the base
/// color's channels, and the alpha multiplied in when the paint opacity
/// is not fully opaque.
pub open spec fn tile_channels(
    p: Paint,
    pat: crate::model::Pattern,
    opacity: i64,
    bbox: Rect,
    ts: Transform,
    base_color: Rgba,
) -> bool {
    &&& (match p.shader {
        Some(Shader::Image(ps)) => pattern_server_matches(ps, pat, bbox, ts),
        _ => false,
    })
    &&& p.color.red == base_color.red
    &&& p.color.green == base_color.green
    &&& p.color.blue == base_color.blue
    &&& (opacity == SCALE ==> p.color.alpha == base_color.alpha)
    &&& (opacity != SCALE ==> p.color.alpha as int == spec_alpha(opacity as int))
}

/// How resolving a paint reference leaves the color and shader of a
/// paint whose color was `base_color` and whose shader was unset.
/// A direct color sets the channels with the scaled alpha; a link is
/// resolved through the definitions table, and everything that fails
/// (dangling id, non-server target, degenerate radius or geometry, a
/// reference cycle) leaves both channels as they were.
pub open spec fn channels_applied(
    defs: Defs,
    pref: PaintRef,
    opacity: i64,
    bbox: Rect,
    ts: Transform,
    base_color: Rgba,
    p: Paint,
) -> bool {
    match pref {
        PaintRef::Color(c) => {
            &&& p.shader is None
            &&& p.color.red == c.red
            &&& p.color.green == c.green
            &&& p.color.blue == c.blue
            &&& p.color.alpha as int == spec_alpha(opacity as int)
        },
        PaintRef::Link(id) => match defs.kind_of(id) {
            None => p.shader is None && p.color == base_color,
            Some(DefKind::Other) => p.shader is None && p.color == base_color,
            Some(DefKind::Linear(lg)) => p.color == base_color && (match p.shader {
                Some(Shader::Linear(ls)) => linear_matches(ls, lg, opacity, bbox),
                _ => false,
            }),
            Some(DefKind::Radial(rg)) => {
                if rg.r <= 0 {
                    p.shader is None && p.color == base_color
                } else {
                    p.color == base_color && (match p.shader {
                        Some(Shader::TwoPointConical(cs)) => radial_matches(cs, rg, opacity, bbox),
                        _ => false,
                    })
                }
            },
            Some(DefKind::Tile(pat)) => {
                if !pattern_geometry_ok(pat, bbox, ts) || hits_cycle(defs, id, Seq::empty(), bbox, ts) {
                    p.shader is None && p.color == base_color
                } else {
                    tile_channels(p, pat, opacity, bbox, ts, base_color)
                }
            },
        },
    }
}

/// Resolves one paint reference onto the paint's color and shader
/// channels; the style and stroke settings stay untouched.
fn apply_paint_ref(
    defs: &Defs,
    pref: PaintRef,
    opacity: i64,
    bbox: &Rect,
    global_ts: &Transform,
    paint: &mut Paint,
)
    requires
        defs.wf(),
        opacity_valid(opacity),
        bbox.wf(),
        global_ts.valid(),
        old(paint).shader is None,
    ensures
        channels_applied(
            *defs,
            pref,
            opacity,
            *bbox,
            *global_ts,
            old(paint).color,
            *final(paint),
        ),
        final(paint).style == old(paint).style,
        final(paint).stroke_cap == old(paint).stroke_cap,
        final(paint).stroke_join == old(paint).stroke_join,
        final(paint).stroke_miter == old(paint).stroke_miter,
        final(paint).stroke_width == old(paint).stroke_width,
        final(paint).dash == old(paint).dash,
{
    match pref {
        PaintRef::Color(c) => {
            let a = opacity_to_alpha(opacity);
            paint.color = Rgba { alpha: a, red: c.red, green: c.green, blue: c.blue };
        },
        PaintRef::Link(id) => {
            let visited: Vec<u64> = Vec::new();
            proof {
                assert(visited@.no_duplicates());
            }
            let res = resolve_link(defs, id, opacity, bbox, global_ts, &visited);
            match res {
                Resolution::Server(s) => {
                    match s.alpha {
                        Some(a) => {
                            paint.color = Rgba {
                                alpha: a,
                                red: paint.color.red,
                                green: paint.color.green,
                                blue: paint.color.blue,
                            };
                        },
                        None => {},
                    }
                    paint.shader = Some(s.shader);
                },
                Resolution::Cycle => {},
                Resolution::NoPaint => {},
            }
        },
    }
}

/// A plain copy of a dash list.
fn copy_list(l: &Vec<i64>) -> (r: Vec<i64>)
    ensures
        r@ == l@,
{
    let n: usize = l.len();
    let mut r: Vec<i64> = Vec::new();
    let mut i: usize = 0;
    while i < n
        invariant
            n == l@.len(),
            i <= n,
            r@ == l@.subrange(0, i as int),
        decreases n - i,
    {
        r.push(l[i]);
        proof {
            assert(r@ =~= l@.subrange(0, i + 1 as int));
        }
        i += 1;
    }
    proof {
        assert(l@.subrange(0, n as int) =~= l@);
    }
    r
}

/// Resolves a fill specification into a paint for one draw call.
///
/// No specification, a dangling or non-server link, a degenerate
/// gradient or pattern, or a reference cycle all yield the default
/// fill paint; a color or a resolvable server configures the paint's
/// color or shader exactly as `channels_applied` states.
pub fn fill(defs: &Defs, fill_spec: &Option<Fill>, bbox: Rect, global_ts: Transform) -> (p: Paint)
    requires
        defs.wf(),
        bbox.wf(),
        global_ts.valid(),
        (match *fill_spec {
            Some(f) => f.wf(),
            None => true,
        }),
    ensures
        p.style == PaintStyle::Fill,
        (*fill_spec) is None ==> p == default_paint(PaintStyle::Fill),
        (match *fill_spec {
            Some(f) => {
                &&& channels_applied(
                    *defs,
                    f.paint,
                    f.opacity,
                    bbox,
                    global_ts,
                    default_paint(PaintStyle::Fill).color,
                    p,
                )
                &&& p.stroke_cap == default_paint(PaintStyle::Fill).stroke_cap
                &&& p.stroke_join == default_paint(PaintStyle::Fill).stroke_join
                &&& p.stroke_miter == default_paint(PaintStyle::Fill).stroke_miter
                &&& p.stroke_width == default_paint(PaintStyle::Fill).stroke_width
                &&& p.dash is None
            },
            None => true,
        }),
{
    let mut paint = Paint::new(PaintStyle::Fill);
    match fill_spec {
        Some(f) => {
            apply_paint_ref(defs, f.paint, f.opacity, &bbox, &global_ts, &mut paint);
        },
        None => {},
    }
    paint
}

/// Resolves a stroke specification into a paint for one draw call.
///
/// The paint's color or shader is resolved exactly as for a fill; the
/// stroke geometry is then configured whether or not that resolution
/// produced anything: cap and join by their one-to-one mappings, miter
/// limit and width as plain numbers, and, when a dash array is present,
/// a dash effect with the array converted element by element and the
/// dash offset as its phase, both unmodified.
pub fn stroke(defs: &Defs, stroke_spec: &Option<Stroke>, bbox: Rect, global_ts: Transform) -> (p: Paint)
    requires
        defs.wf(),
        bbox.wf(),
        global_ts.valid(),
        (match *stroke_spec {
            Some(s) => s.wf(),
            None => true,
        }),
    ensures
        p.style == PaintStyle::Stroke,
        (*stroke_spec) is None ==> p == default_paint(PaintStyle::Stroke),
        (match *stroke_spec {
            Some(s) => {
                &&& channels_applied(
                    *defs,
                    s.paint,
                    s.opacity,
                    bbox,
                    global_ts,
                    default_paint(PaintStyle::Stroke).color,
                    p,
                )
                &&& p.stroke_cap == cap_of(s.linecap)
                &&& p.stroke_join == join_of(s.linejoin)
                &&& p.stroke_miter == s.miterlimit
                &&& p.stroke_width == s.width
                &&& (match s.dasharray {
                    Some(list) => p.dash matches Some(d) && d.array@ == list@ && d.phase
                        == s.dashoffset,
                    None => p.dash is None,
                })
            },
            None => true,
        }),
{
    let mut paint = Paint::new(PaintStyle::Stroke);
    match stroke_spec {
        Some(s) => {
            apply_paint_ref(defs, s.paint, s.opacity, &bbox, &global_ts, &mut paint);

            let stroke_cap = match s.linecap {
                LineCap::Butt => StrokeCap::Butt,
                LineCap::Round => StrokeCap::Round,
                LineCap::Square => StrokeCap::Square,
            };
            paint.stroke_cap = stroke_cap;

            let stroke_join = match s.linejoin {
                LineJoin::Miter => StrokeJoin::Miter,
                LineJoin::Round => StrokeJoin::Round,
                LineJoin::Bevel => StrokeJoin::Bevel,
            };
            paint.stroke_join = stroke_join;

            paint.stroke_miter = s.miterlimit;
            paint.stroke_width = s.width;

            match &s.dasharray {
                Some(list) => {
                    let arr = copy_list(list);
                    paint.dash = Some(DashEffect { array: arr, phase: s.dashoffset });
                },
                None => {},
            }
        },
        None => {},
    }
    paint
}

} // verus!
