use paint_server::fixed::SCALE;
use paint_server::geom::{Rect, Transform};
use paint_server::gradient::{prepare_base_gradient, prepare_linear, prepare_radial};
use paint_server::model::{
    BaseGradient, Color, DefEntry, DefKind, Defs, Fill, LineCap, LineJoin, LinearGradient,
    PaintRef, Pattern, RadialGradient, SpreadMethod, Stop, Stroke, Units, ViewBox,
};
use paint_server::paint::{Paint, PaintStyle, Rgba, Shader, StrokeCap, StrokeJoin, TileMode};
use paint_server::resolver::{fill, stroke};

fn identity() -> Transform {
    Transform::identity()
}

fn unit_bbox() -> Rect {
    Rect { x: 0, y: 0, w: SCALE, h: SCALE }
}

fn empty_defs() -> Defs {
    Defs { entries: Vec::new() }
}

fn plain_base(spread: SpreadMethod, units: Units, stops: Vec<Stop>) -> BaseGradient {
    BaseGradient { stops, spread_method: spread, units, transform: identity() }
}

fn two_stops(op1: i64, op2: i64) -> Vec<Stop> {
    vec![
        Stop { offset: 0, color: Color { red: 255, green: 0, blue: 0 }, opacity: op1 },
        Stop { offset: SCALE, color: Color { red: 0, green: 0, blue: 255 }, opacity: op2 },
    ]
}

fn simple_pattern(content: Vec<u64>) -> Pattern {
    Pattern {
        rect: Rect { x: 0, y: 0, w: SCALE, h: SCALE },
        units: Units::UserSpace,
        content_units: Units::UserSpace,
        view_box: None,
        transform: identity(),
        content,
    }
}

#[test]
fn color_fill_half_opacity_rounds_to_128() {
    let defs = empty_defs();
    let spec = Some(Fill {
        paint: PaintRef::Color(Color { red: 10, green: 20, blue: 30 }),
        opacity: 500_000,
    });
    let p = fill(&defs, &spec, unit_bbox(), identity());
    assert_eq!(p.style, PaintStyle::Fill);
    assert_eq!(p.color, Rgba { alpha: 128, red: 10, green: 20, blue: 30 });
    assert!(p.shader.is_none());
}

#[test]
fn color_fill_full_and_zero_opacity() {
    let defs = empty_defs();
    let c = Color { red: 1, green: 2, blue: 3 };
    let full = fill(
        &defs,
        &Some(Fill { paint: PaintRef::Color(c), opacity: SCALE }),
        unit_bbox(),
        identity(),
    );
    assert_eq!(full.color.alpha, 255);
    let zero = fill(
        &defs,
        &Some(Fill { paint: PaintRef::Color(c), opacity: 0 }),
        unit_bbox(),
        identity(),
    );
    assert_eq!(zero.color.alpha, 0);
}

#[test]
fn object_bbox_gradient_transform_composes() {
    // bbox (10, 20, 100, 50); gradient transform translates by (5, 0).
    let bbox = Rect { x: 10_000_000, y: 20_000_000, w: 100_000_000, h: 50_000_000 };
    let g = BaseGradient {
        stops: two_stops(SCALE, SCALE),
        spread_method: SpreadMethod::Pad,
        units: Units::ObjectBoundingBox,
        transform: Transform { a: SCALE, b: 0, c: 0, d: SCALE, e: 5_000_000, f: 0 },
    };
    let b = prepare_base_gradient(&g, SCALE, &bbox);
    // Sample known points of the composed transform.
    let origin = b.transform.apply(0, 0);
    assert_eq!(origin, (510_000_000, 20_000_000)); // (0,0) -> user (510, 20)
    let unit = b.transform.apply(SCALE, SCALE);
    assert_eq!(unit, (610_000_000, 70_000_000)); // (1,1) -> user (610, 70)
}

#[test]
fn user_space_gradient_transform_is_passed_through() {
    let g = BaseGradient {
        stops: two_stops(SCALE, SCALE),
        spread_method: SpreadMethod::Pad,
        units: Units::UserSpace,
        transform: Transform { a: 2_000_000, b: 0, c: 0, d: 3_000_000, e: 7, f: 8 },
    };
    let b = prepare_base_gradient(&g, SCALE, &unit_bbox());
    assert_eq!(b.transform, g.transform);
}

#[test]
fn stop_alphas_combine_with_paint_opacity() {
    // paint opacity 0.5 with stop opacities [1.0, 0.5] -> combined [0.5, 0.25].
    let g = plain_base(SpreadMethod::Pad, Units::UserSpace, two_stops(SCALE, 500_000));
    let b = prepare_base_gradient(&g, 500_000, &unit_bbox());
    assert_eq!(b.colors.len(), 2);
    assert_eq!(b.positions.len(), 2);
    assert_eq!(b.colors[0].alpha, 128); // 0.5 * 255 rounded to nearest
    assert_eq!(b.colors[1].alpha, 64); // 0.25 * 255 rounded to nearest
    assert_eq!(b.positions[0], 0);
    assert_eq!(b.positions[1], SCALE);
    assert_eq!(b.colors[0].red, 255);
    assert_eq!(b.colors[1].blue, 255);
}

#[test]
fn spread_methods_map_exactly() {
    for (spread, tile) in [
        (SpreadMethod::Pad, TileMode::Clamp),
        (SpreadMethod::Reflect, TileMode::Mirror),
        (SpreadMethod::Repeat, TileMode::Repeat),
    ] {
        let g = plain_base(spread, Units::UserSpace, two_stops(SCALE, SCALE));
        let b = prepare_base_gradient(&g, SCALE, &unit_bbox());
        assert_eq!(b.tile_mode, tile);
    }
}

#[test]
fn radial_gradient_yields_zero_start_radius_and_r_end_radius() {
    let g = RadialGradient {
        base: plain_base(SpreadMethod::Pad, Units::UserSpace, two_stops(SCALE, SCALE)),
        cx: 42_000_000,
        cy: -7_000_000,
        r: 10_000_000,
        fx: 1_234_567,
        fy: 7_654_321,
    };
    let defs = Defs { entries: vec![DefEntry { id: 5, kind: DefKind::Radial(g) }] };
    let spec = Some(Fill { paint: PaintRef::Link(5), opacity: SCALE });
    let p = fill(&defs, &spec, unit_bbox(), identity());
    match p.shader {
        Some(Shader::TwoPointConical(cs)) => {
            assert_eq!(cs.start_radius, 0);
            assert_eq!(cs.end_radius, 10_000_000);
            assert_eq!(cs.start_x, 1_234_567);
            assert_eq!(cs.start_y, 7_654_321);
            assert_eq!(cs.end_x, 42_000_000);
            assert_eq!(cs.end_y, -7_000_000);
        }
        _ => panic!("expected a two-point conical shader"),
    }
}

#[test]
fn radial_gradient_with_zero_radius_leaves_paint_unset() {
    let g = RadialGradient {
        base: plain_base(SpreadMethod::Pad, Units::UserSpace, two_stops(SCALE, SCALE)),
        cx: 0,
        cy: 0,
        r: 0,
        fx: 0,
        fy: 0,
    };
    let defs = Defs { entries: vec![DefEntry { id: 5, kind: DefKind::Radial(g) }] };
    let spec = Some(Fill { paint: PaintRef::Link(5), opacity: SCALE });
    let p = fill(&defs, &spec, unit_bbox(), identity());
    assert!(p.shader.is_none());
    assert_eq!(p.color, Rgba { alpha: 255, red: 0, green: 0, blue: 0 });
}

#[test]
fn dangling_link_resolves_to_default_paint() {
    let defs = empty_defs();
    let spec = Some(Fill { paint: PaintRef::Link(42), opacity: SCALE });
    let p = fill(&defs, &spec, unit_bbox(), identity());
    assert_eq!(p.style, PaintStyle::Fill);
    assert!(p.shader.is_none());
    assert_eq!(p.color, Rgba { alpha: 255, red: 0, green: 0, blue: 0 });
}

#[test]
fn link_to_non_server_definition_resolves_to_default_paint() {
    let defs = Defs { entries: vec![DefEntry { id: 9, kind: DefKind::Other }] };
    let spec = Some(Fill { paint: PaintRef::Link(9), opacity: SCALE });
    let p = fill(&defs, &spec, unit_bbox(), identity());
    assert!(p.shader.is_none());
}

#[test]
fn no_fill_specification_gives_default_paint() {
    let defs = empty_defs();
    let p = fill(&defs, &None, unit_bbox(), identity());
    assert_eq!(p.style, PaintStyle::Fill);
    assert!(p.shader.is_none());
    assert!(p.dash.is_none());
}

#[test]
fn self_referencing_pattern_resolves_to_no_paint() {
    let defs = Defs {
        entries: vec![DefEntry { id: 1, kind: DefKind::Tile(simple_pattern(vec![1])) }],
    };
    let spec = Some(Fill { paint: PaintRef::Link(1), opacity: SCALE });
    let p = fill(&defs, &spec, unit_bbox(), identity());
    assert!(p.shader.is_none());
    assert_eq!(p.color, Rgba { alpha: 255, red: 0, green: 0, blue: 0 });
}

#[test]
fn two_pattern_cycle_resolves_to_no_paint() {
    let defs = Defs {
        entries: vec![
            DefEntry { id: 1, kind: DefKind::Tile(simple_pattern(vec![2])) },
            DefEntry { id: 2, kind: DefKind::Tile(simple_pattern(vec![1])) },
        ],
    };
    let spec = Some(Fill { paint: PaintRef::Link(1), opacity: SCALE });
    let p = fill(&defs, &spec, unit_bbox(), identity());
    assert!(p.shader.is_none());
}

#[test]
fn fifty_nested_patterns_resolve() {
    let mut entries = Vec::new();
    for i in 1u64..50 {
        entries.push(DefEntry { id: i, kind: DefKind::Tile(simple_pattern(vec![i + 1])) });
    }
    entries.push(DefEntry { id: 50, kind: DefKind::Tile(simple_pattern(Vec::new())) });
    let defs = Defs { entries };
    let spec = Some(Fill { paint: PaintRef::Link(1), opacity: SCALE });
    let p = fill(&defs, &spec, unit_bbox(), identity());
    // Walk the chain: each level must carry a pattern shader for the next.
    let mut depth = 1u64;
    let mut cur = match p.shader {
        Some(Shader::Image(ps)) => ps,
        _ => panic!("expected a pattern shader at the top"),
    };
    loop {
        if cur.children.is_empty() {
            break;
        }
        assert_eq!(cur.children.len(), 1);
        cur = match cur.children.remove(0).shader {
            Some(Shader::Image(ps)) => ps,
            _ => panic!("expected a nested pattern shader"),
        };
        depth += 1;
    }
    assert_eq!(depth, 50);
}

#[test]
fn dash_array_and_offset_pass_through_exactly() {
    let defs = empty_defs();
    let spec = Some(Stroke {
        paint: PaintRef::Color(Color { red: 0, green: 0, blue: 0 }),
        opacity: SCALE,
        linecap: LineCap::Round,
        linejoin: LineJoin::Bevel,
        miterlimit: 4_000_000,
        width: 2_000_000,
        dasharray: Some(vec![4_000_000, 2_000_000]),
        dashoffset: 1_000_000,
    });
    let p = stroke(&defs, &spec, unit_bbox(), identity());
    assert_eq!(p.style, PaintStyle::Stroke);
    let d = p.dash.expect("expected a dash effect");
    assert_eq!(d.array, vec![4_000_000, 2_000_000]);
    assert_eq!(d.phase, 1_000_000);
}

#[test]
fn stroke_geometry_is_mapped_one_to_one() {
    let defs = empty_defs();
    let spec = Some(Stroke {
        paint: PaintRef::Color(Color { red: 9, green: 9, blue: 9 }),
        opacity: SCALE,
        linecap: LineCap::Square,
        linejoin: LineJoin::Round,
        miterlimit: 10_000_000,
        width: 3_500_000,
        dasharray: None,
        dashoffset: 0,
    });
    let p = stroke(&defs, &spec, unit_bbox(), identity());
    assert_eq!(p.stroke_cap, StrokeCap::Square);
    assert_eq!(p.stroke_join, StrokeJoin::Round);
    assert_eq!(p.stroke_miter, 10_000_000);
    assert_eq!(p.stroke_width, 3_500_000);
    assert!(p.dash.is_none());
}

#[test]
fn no_stroke_specification_gives_default_paint() {
    let defs = empty_defs();
    let p = stroke(&defs, &None, unit_bbox(), identity());
    assert_eq!(p.style, PaintStyle::Stroke);
    assert!(p.shader.is_none());
    assert_eq!(p.stroke_cap, StrokeCap::Butt);
    assert_eq!(p.stroke_join, StrokeJoin::Miter);
}

#[test]
fn stroke_resolves_linear_gradient_and_still_sets_geometry() {
    let lg = LinearGradient {
        base: plain_base(SpreadMethod::Reflect, Units::UserSpace, two_stops(SCALE, SCALE)),
        x1: 1_000_000,
        y1: 2_000_000,
        x2: 3_000_000,
        y2: 4_000_000,
    };
    let defs = Defs { entries: vec![DefEntry { id: 7, kind: DefKind::Linear(lg) }] };
    let spec = Some(Stroke {
        paint: PaintRef::Link(7),
        opacity: SCALE,
        linecap: LineCap::Butt,
        linejoin: LineJoin::Miter,
        miterlimit: 4_000_000,
        width: 1_000_000,
        dasharray: None,
        dashoffset: 0,
    });
    let p = stroke(&defs, &spec, unit_bbox(), identity());
    match p.shader {
        Some(Shader::Linear(ls)) => {
            assert_eq!((ls.start_x, ls.start_y), (1_000_000, 2_000_000));
            assert_eq!((ls.end_x, ls.end_y), (3_000_000, 4_000_000));
            assert_eq!(ls.base.tile_mode, TileMode::Mirror);
        }
        _ => panic!("expected a linear shader"),
    }
    assert_eq!(p.stroke_width, 1_000_000);
}

#[test]
fn pattern_raster_size_and_placement() {
    // A 2x3 user-space tile at (3, 4) under an identity global transform.
    let mut pat = simple_pattern(Vec::new());
    pat.rect = Rect { x: 3_000_000, y: 4_000_000, w: 2_000_000, h: 3_000_000 };
    let defs = Defs { entries: vec![DefEntry { id: 1, kind: DefKind::Tile(pat) }] };
    let spec = Some(Fill { paint: PaintRef::Link(1), opacity: SCALE });
    let p = fill(&defs, &spec, unit_bbox(), identity());
    match p.shader {
        Some(Shader::Image(ps)) => {
            assert_eq!(ps.width_px, 2);
            assert_eq!(ps.height_px, 3);
            // Placement: pattern transform, then translation to the tile
            // origin, then the inverse device scale (1.0 here).
            assert_eq!(ps.placement_transform.e, 3_000_000);
            assert_eq!(ps.placement_transform.f, 4_000_000);
            assert_eq!(ps.placement_transform.a, SCALE);
            assert_eq!(ps.placement_transform.d, SCALE);
            // Surface transform: device scale only.
            assert_eq!(ps.surface_transform.a, SCALE);
            assert_eq!(ps.surface_transform.d, SCALE);
        }
        _ => panic!("expected a pattern shader"),
    }
    assert_eq!(p.color.alpha, 255);
}

#[test]
fn pattern_with_zero_scale_transform_resolves_to_no_paint() {
    let defs = Defs {
        entries: vec![DefEntry { id: 1, kind: DefKind::Tile(simple_pattern(Vec::new())) }],
    };
    let spec = Some(Fill { paint: PaintRef::Link(1), opacity: SCALE });
    let zero_scale = Transform { a: 0, b: 0, c: 0, d: 0, e: 0, f: 0 };
    let p = fill(&defs, &spec, unit_bbox(), zero_scale);
    assert!(p.shader.is_none());
}

#[test]
fn pattern_opacity_multiplies_paint_alpha_once() {
    let defs = Defs {
        entries: vec![DefEntry { id: 1, kind: DefKind::Tile(simple_pattern(Vec::new())) }],
    };
    let spec = Some(Fill { paint: PaintRef::Link(1), opacity: 500_000 });
    let p = fill(&defs, &spec, unit_bbox(), identity());
    assert!(matches!(p.shader, Some(Shader::Image(_))));
    assert_eq!(p.color.alpha, 128);
    assert_eq!((p.color.red, p.color.green, p.color.blue), (0, 0, 0));
}

#[test]
fn pattern_view_box_takes_precedence_and_scales() {
    // A 2x2 tile with a 1x1 view box: content is drawn at twice the size.
    let mut pat = simple_pattern(Vec::new());
    pat.rect = Rect { x: 0, y: 0, w: 2_000_000, h: 2_000_000 };
    pat.view_box = Some(ViewBox { rect: Rect { x: 0, y: 0, w: 1_000_000, h: 1_000_000 } });
    pat.content_units = Units::ObjectBoundingBox; // must be ignored: view box wins
    let defs = Defs { entries: vec![DefEntry { id: 1, kind: DefKind::Tile(pat) }] };
    let spec = Some(Fill { paint: PaintRef::Link(1), opacity: SCALE });
    let p = fill(&defs, &spec, unit_bbox(), identity());
    match p.shader {
        Some(Shader::Image(ps)) => {
            assert_eq!(ps.surface_transform.a, 2_000_000);
            assert_eq!(ps.surface_transform.d, 2_000_000);
            assert_eq!(ps.surface_transform.e, 0);
            assert_eq!(ps.surface_transform.f, 0);
        }
        _ => panic!("expected a pattern shader"),
    }
}

#[test]
fn pattern_object_bounding_box_units_map_the_tile() {
    // Pattern rect (0, 0, 0.5, 0.5) of a 100x50 bbox at (10, 20).
    let mut pat = simple_pattern(Vec::new());
    pat.rect = Rect { x: 0, y: 0, w: 500_000, h: 500_000 };
    pat.units = Units::ObjectBoundingBox;
    let bbox = Rect { x: 10_000_000, y: 20_000_000, w: 100_000_000, h: 50_000_000 };
    let defs = Defs { entries: vec![DefEntry { id: 1, kind: DefKind::Tile(pat) }] };
    let spec = Some(Fill { paint: PaintRef::Link(1), opacity: SCALE });
    let p = fill(&defs, &spec, bbox, identity());
    match p.shader {
        Some(Shader::Image(ps)) => {
            assert_eq!(ps.width_px, 50);
            assert_eq!(ps.height_px, 25);
            assert_eq!(ps.placement_transform.e, 10_000_000);
            assert_eq!(ps.placement_transform.f, 20_000_000);
        }
        _ => panic!("expected a pattern shader"),
    }
}

#[test]
fn scale_factors_ignore_rotation() {
    // A rotation-like column (3, 4) has length 5.
    let t = Transform { a: 3_000_000, b: 4_000_000, c: 0, d: 2_000_000, e: 0, f: 0 };
    let (sx, sy) = t.get_scale();
    assert_eq!(sx, 5_000_000);
    assert_eq!(sy, 2_000_000);
}

#[test]
fn prepare_linear_sets_shader_and_keeps_paint() {
    let lg = LinearGradient {
        base: plain_base(SpreadMethod::Pad, Units::UserSpace, two_stops(SCALE, SCALE)),
        x1: 0,
        y1: 0,
        x2: SCALE,
        y2: 0,
    };
    let mut p = Paint::new(PaintStyle::Fill);
    prepare_linear(&lg, SCALE, unit_bbox(), &mut p);
    match p.shader {
        Some(Shader::Linear(ls)) => {
            assert_eq!((ls.end_x, ls.end_y), (SCALE, 0));
            assert_eq!(ls.base.tile_mode, TileMode::Clamp);
        }
        _ => panic!("expected a linear shader"),
    }
    assert_eq!(p.color, Rgba { alpha: 255, red: 0, green: 0, blue: 0 });
}

#[test]
fn prepare_radial_skips_degenerate_radius() {
    let rg = RadialGradient {
        base: plain_base(SpreadMethod::Pad, Units::UserSpace, two_stops(SCALE, SCALE)),
        cx: SCALE,
        cy: SCALE,
        r: -1,
        fx: 0,
        fy: 0,
    };
    let mut p = Paint::new(PaintStyle::Fill);
    prepare_radial(&rg, SCALE, unit_bbox(), &mut p);
    assert!(p.shader.is_none());
}

#[test]
fn gradient_with_no_stops_yields_empty_lists() {
    let g = plain_base(SpreadMethod::Repeat, Units::UserSpace, Vec::new());
    let b = prepare_base_gradient(&g, SCALE, &unit_bbox());
    assert!(b.colors.is_empty());
    assert!(b.positions.is_empty());
    assert_eq!(b.tile_mode, TileMode::Repeat);
}

#[test]
fn zero_length_dash_pattern_passes_through_unguarded() {
    let defs = empty_defs();
    let spec = Some(Stroke {
        paint: PaintRef::Color(Color { red: 0, green: 0, blue: 0 }),
        opacity: SCALE,
        linecap: LineCap::Butt,
        linejoin: LineJoin::Miter,
        miterlimit: 4_000_000,
        width: 1_000_000,
        dasharray: Some(vec![0, 0]),
        dashoffset: 0,
    });
    let p = stroke(&defs, &spec, unit_bbox(), identity());
    let d = p.dash.expect("expected a dash effect");
    assert_eq!(d.array, vec![0, 0]);
    assert_eq!(d.phase, 0);
}
