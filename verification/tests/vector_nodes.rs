use glam::{DAffine2, DVec2};
use graphene_core::geometry::Real;
use graphene_core::path::Path;
use graphene_core::scene::{
    AlphaBlending, BlendMode, Color, ConcatElement, Fill, FillType, GradientType, LineCap,
    LineJoin, NodeError, VectorData,
};
use graphene_core::graphic::{GraphicElement, GraphicGroup};
use graphene_core::nodes::{
    circular_repeat_vector_data, copy_to_points, generate_bounding_box, repeat_vector_data,
    sample_points, set_vector_data_fill, set_vector_data_stroke, splines_from_points,
    BoundingBoxNode, CircularRepeatNode, CopyToPoints, RepeatNode, SamplePoints, SetFillNode,
    SetStrokeNode, SplinesFromPointsNode,
};

fn carried(x: f64) -> Real {
    Real { v: DVec2::splat(x) }
}

fn color(r: f64, g: f64, b: f64, a: f64) -> Color {
    Color { red: carried(r), green: carried(g), blue: carried(b), alpha: carried(a) }
}

fn triangle() -> Path {
    Path::from_anchors(
        &vec![DVec2::new(0., 0.), DVec2::new(4., 0.), DVec2::new(4., 3.)],
        true,
    )
}

fn square() -> Path {
    Path::from_anchors(
        &vec![DVec2::new(0., 0.), DVec2::new(2., 0.), DVec2::new(2., 2.), DVec2::new(0., 2.)],
        true,
    )
}

fn near(a: DVec2, b: DVec2) -> bool {
    (a - b).length() < 1e-9
}

fn bbox_center(p: &Path) -> DVec2 {
    let (lo, hi) = p.bounding_box().unwrap();
    (lo + hi) / 2.
}

#[test]
fn repeat_two_triangles() {
    let scene = VectorData::from_subpaths(vec![triangle()]);
    let out = repeat_vector_data(scene, DVec2::new(5., 0.), 2);
    assert_eq!(out.subpaths.len(), 2);
    let first = out.subpaths[0].anchors();
    let second = out.subpaths[1].anchors();
    let original = triangle().anchors();
    assert_eq!(first.len(), 3);
    assert_eq!(second.len(), 3);
    for k in 0..3 {
        assert!(near(first[k], original[k]));
        assert!(near(second[k], original[k] + DVec2::new(5., 0.)));
    }
    assert!(out.subpaths[0].closed());
    assert!(out.subpaths[1].closed());
}

#[test]
fn repeat_count_zero_empties() {
    let scene = VectorData::from_subpaths(vec![triangle(), square()]);
    let out = repeat_vector_data(scene, DVec2::new(1., 1.), 0);
    assert_eq!(out.subpaths.len(), 0);
}

#[test]
fn repeat_count_one_is_identity() {
    let scene = VectorData::from_subpaths(vec![triangle()]);
    let out = repeat_vector_data(scene, DVec2::new(9., 9.), 1);
    assert_eq!(out.subpaths.len(), 1);
    let got = out.subpaths[0].anchors();
    let original = triangle().anchors();
    for k in 0..3 {
        assert!(near(got[k], original[k]));
    }
}

#[test]
fn repeat_direction_measured_in_callers_units() {
    let mut scene = VectorData::from_subpaths(vec![triangle()]);
    scene.transform = DAffine2::from_scale(DVec2::new(2., 2.));
    let node = RepeatNode { direction: DVec2::new(5., 0.), count: 2 };
    let out = node.eval(scene);
    assert_eq!(out.subpaths.len(), 2);
    let original = triangle().anchors();
    let second = out.subpaths[1].anchors();
    for k in 0..3 {
        assert!(near(second[k], original[k] + DVec2::new(2.5, 0.)));
    }
}

#[test]
fn circular_repeat_centers_equidistant_and_evenly_spaced() {
    let scene = VectorData::from_subpaths(vec![square()]);
    let out = circular_repeat_vector_data(scene, carried(0.), carried(5.), 4).unwrap();
    assert_eq!(out.subpaths.len(), 4);
    let center = DVec2::new(1., 1.);
    let expected = [
        DVec2::new(1., 6.),
        DVec2::new(-4., 1.),
        DVec2::new(1., -4.),
        DVec2::new(6., 1.),
    ];
    for i in 0..4 {
        let c = bbox_center(&out.subpaths[i]);
        assert!((c.distance(center) - 5.).abs() < 1e-9);
        assert!(near(c, expected[i]));
    }
}

#[test]
fn circular_repeat_angle_offset_rotates_all() {
    let scene = VectorData::from_subpaths(vec![square()]);
    let out = circular_repeat_vector_data(scene, carried(90.), carried(5.), 1).unwrap();
    assert_eq!(out.subpaths.len(), 1);
    let c = bbox_center(&out.subpaths[0]);
    assert!(near(c, DVec2::new(-4., 1.)));
}

#[test]
fn circular_repeat_without_extent_fails() {
    let scene = VectorData::from_subpaths(vec![]);
    let out = circular_repeat_vector_data(scene, carried(0.), carried(5.), 3);
    assert!(matches!(out, Err(NodeError::MissingBoundingBox)));
}

#[test]
fn bounding_box_spans_all_paths() {
    let a = Path::from_anchors(&vec![DVec2::new(0., 0.), DVec2::new(1., 1.)], false);
    let b = Path::from_anchors(&vec![DVec2::new(5., 5.), DVec2::new(7., 9.)], false);
    let scene = VectorData::from_subpaths(vec![a, b]);
    let out = generate_bounding_box(scene).unwrap();
    assert_eq!(out.subpaths.len(), 1);
    let anchors = out.subpaths[0].anchors();
    assert_eq!(anchors.len(), 4);
    assert!(near(anchors[0], DVec2::new(0., 0.)));
    assert!(near(anchors[2], DVec2::new(7., 9.)));
    assert!(out.subpaths[0].closed());
}

#[test]
fn bounding_box_in_world_space() {
    let a = Path::from_anchors(&vec![DVec2::new(0., 0.), DVec2::new(1., 1.)], false);
    let mut scene = VectorData::from_subpaths(vec![a]);
    scene.transform = DAffine2::from_translation(DVec2::new(10., 0.));
    let out = generate_bounding_box(scene).unwrap();
    let anchors = out.subpaths[0].anchors();
    assert!(near(anchors[0], DVec2::new(10., 0.)));
    assert!(near(anchors[2], DVec2::new(11., 1.)));
}

#[test]
fn bounding_box_without_extent_fails() {
    let empty = VectorData::from_subpaths(vec![]);
    assert!(matches!(generate_bounding_box(empty), Err(NodeError::MissingBoundingBox)));
    let lone = Path::from_anchors(&vec![DVec2::new(3., 3.)], false);
    let degenerate = VectorData::from_subpaths(vec![lone]);
    assert!(matches!(generate_bounding_box(degenerate), Err(NodeError::MissingBoundingBox)));
}

#[test]
fn sample_adaptive_reaches_far_end() {
    let line = Path::from_anchors(&vec![DVec2::new(0., 0.), DVec2::new(10., 0.)], false);
    let scene = VectorData::from_subpaths(vec![line]);
    let out = sample_points(scene, carried(3.), carried(0.), carried(0.), true);
    let anchors = out.subpaths[0].anchors();
    assert_eq!(anchors.len(), 4);
    assert!(near(anchors[0], DVec2::new(0., 0.)));
    assert!(near(anchors[3], DVec2::new(10., 0.)));
}

#[test]
fn sample_fixed_keeps_exact_spacing() {
    let line = Path::from_anchors(&vec![DVec2::new(0., 0.), DVec2::new(10., 0.)], false);
    let scene = VectorData::from_subpaths(vec![line]);
    let node = SamplePoints {
        spacing: carried(3.),
        start_offset: carried(0.),
        stop_offset: carried(0.),
        adaptive_spacing: false,
    };
    let out = node.eval(scene);
    let anchors = out.subpaths[0].anchors();
    assert_eq!(anchors.len(), 4);
    for k in 0..3 {
        let step = anchors[k + 1].x - anchors[k].x;
        assert!((step - 3.).abs() < 2e-2);
    }
    assert!((anchors[3].x - 9.).abs() < 2e-2);
}

#[test]
fn sample_respects_start_offset() {
    let line = Path::from_anchors(&vec![DVec2::new(0., 0.), DVec2::new(10., 0.)], false);
    let scene = VectorData::from_subpaths(vec![line]);
    let out = sample_points(scene, carried(4.), carried(2.), carried(0.), true);
    let anchors = out.subpaths[0].anchors();
    assert_eq!(anchors.len(), 3);
    assert!((anchors[0].x - 2.).abs() < 2e-2);
    assert!((anchors[2].x - 10.).abs() < 1e-9);
}

#[test]
fn sample_skips_bad_spacing_and_exhausted_length() {
    let line = Path::from_anchors(&vec![DVec2::new(0., 0.), DVec2::new(10., 0.)], false);
    let scene = VectorData::from_subpaths(vec![line]);
    let out = sample_points(scene, carried(0.), carried(0.), carried(0.), true);
    assert_eq!(out.subpaths[0].anchors().len(), 2);

    let line2 = Path::from_anchors(&vec![DVec2::new(0., 0.), DVec2::new(10., 0.)], false);
    let scene2 = VectorData::from_subpaths(vec![line2]);
    let out2 = sample_points(scene2, carried(f64::NAN), carried(0.), carried(0.), false);
    assert_eq!(out2.subpaths[0].anchors().len(), 2);

    let line3 = Path::from_anchors(&vec![DVec2::new(0., 0.), DVec2::new(10., 0.)], false);
    let scene3 = VectorData::from_subpaths(vec![line3]);
    let out3 = sample_points(scene3, carried(3.), carried(8.), carried(8.), true);
    let anchors = out3.subpaths[0].anchors();
    assert_eq!(anchors.len(), 2);
    assert!(near(anchors[1], DVec2::new(10., 0.)));
}

#[test]
fn concat_appends_and_overwrites_style() {
    let mut a = VectorData::from_subpaths(vec![triangle()]);
    a.mirror_angle = vec![carried(15.)];
    let mut b = VectorData::from_subpaths(vec![square(), triangle()]);
    b.mirror_angle = vec![carried(30.), carried(45.)];
    b.style.fill = Fill::Solid(color(0.5, 0.25, 0., 1.));
    a.concat(&b, DAffine2::IDENTITY);
    assert_eq!(a.subpaths.len(), 3);
    assert_eq!(a.mirror_angle.len(), 3);
    assert!((a.mirror_angle[2].v.x - 45.).abs() < 1e-12);
    match &a.style.fill {
        Fill::Solid(c) => assert!((c.red.v.x - 0.5).abs() < 1e-12),
        _ => panic!("fill was not overwritten"),
    }
    let appended = a.subpaths[1].anchors();
    let original = square().anchors();
    for k in 0..4 {
        assert!(near(appended[k], original[k]));
    }
}

#[test]
fn concat_bakes_the_other_transform_in() {
    let mut a = VectorData::from_subpaths(vec![]);
    let mut b = VectorData::from_subpaths(vec![square()]);
    b.transform = DAffine2::from_translation(DVec2::new(3., 0.));
    a.concat(&b, DAffine2::IDENTITY);
    assert_eq!(a.subpaths.len(), 1);
    let got = a.subpaths[0].anchors();
    let original = square().anchors();
    for k in 0..4 {
        assert!(near(got[k], original[k] + DVec2::new(3., 0.)));
    }
}

#[test]
fn group_concat_flattens_and_retransforms() {
    let mut a = GraphicGroup {
        elements: vec![],
        transform: DAffine2::IDENTITY,
        alpha_blending: AlphaBlending { blend_mode: BlendMode::Normal, opacity: carried(1.) },
    };
    let mut inner = VectorData::from_subpaths(vec![square()]);
    inner.transform = DAffine2::from_translation(DVec2::new(1., 0.));
    let b = GraphicGroup {
        elements: vec![GraphicElement::Vector(inner)],
        transform: DAffine2::from_translation(DVec2::new(0., 2.)),
        alpha_blending: AlphaBlending { blend_mode: BlendMode::Multiply, opacity: carried(0.5) },
    };
    let extra = DAffine2::from_translation(DVec2::new(7., 0.));
    a.concat(&b, extra);
    assert_eq!(a.elements.len(), 1);
    match &a.elements[0] {
        GraphicElement::Vector(v) => {
            let expected = extra
                * DAffine2::from_translation(DVec2::new(1., 0.))
                * DAffine2::from_translation(DVec2::new(0., 2.));
            assert!(v.transform.abs_diff_eq(expected, 1e-12));
        }
        _ => panic!("expected a flat vector element"),
    }
    assert!(matches!(a.alpha_blending.blend_mode, BlendMode::Multiply));
    assert!((a.alpha_blending.opacity.v.x - 0.5).abs() < 1e-12);
}

#[test]
fn copy_to_points_places_instance_centers_on_anchors() {
    let anchors = vec![DVec2::new(1., 2.), DVec2::new(5., 6.), DVec2::new(-3., 0.)];
    let points =
        VectorData::from_subpaths(vec![Path::from_anchors(&anchors, false)]);
    let instance = VectorData::from_subpaths(vec![square()]);
    let out: VectorData = copy_to_points(&points, &instance);
    assert_eq!(out.subpaths.len(), 3);
    for k in 0..3 {
        assert!(near(bbox_center(&out.subpaths[k]), anchors[k]));
    }
}

#[test]
fn copy_to_points_maps_anchors_through_points_transform() {
    let anchors = vec![DVec2::new(1., 0.)];
    let mut points =
        VectorData::from_subpaths(vec![Path::from_anchors(&anchors, false)]);
    points.transform = DAffine2::from_translation(DVec2::new(0., 10.));
    let instance = VectorData::from_subpaths(vec![square()]);
    let out: VectorData = copy_to_points(&points, &instance);
    assert_eq!(out.subpaths.len(), 1);
    assert!(near(bbox_center(&out.subpaths[0]), DVec2::new(1., 10.)));
}

#[test]
fn splines_interpolate_and_are_stable() {
    let pts = vec![DVec2::new(0., 0.), DVec2::new(1., 2.), DVec2::new(3., 1.)];
    let scene = VectorData::from_subpaths(vec![Path::from_anchors(&pts, false)]);
    let node = SplinesFromPointsNode {};
    let once = node.eval(scene);
    let again = splines_from_points(once.clone());
    let a1 = once.subpaths[0].anchors();
    let a2 = again.subpaths[0].anchors();
    assert_eq!(a1.len(), 3);
    assert_eq!(a2.len(), 3);
    for k in 0..3 {
        assert!(near(a1[k], pts[k]));
        assert!(near(a2[k], a1[k]));
    }
    let b1 = once.subpaths[0].bounding_box().unwrap();
    let b2 = again.subpaths[0].bounding_box().unwrap();
    assert!(near(b1.0, b2.0));
    assert!(near(b1.1, b2.1));
    assert!(!once.subpaths[0].closed());
}

#[test]
fn splines_degenerate_input_yields_empty_curve() {
    let scene =
        VectorData::from_subpaths(vec![Path::from_anchors(&vec![DVec2::new(1., 1.)], false)]);
    let out = splines_from_points(scene);
    assert_eq!(out.subpaths.len(), 1);
    assert_eq!(out.subpaths[0].anchors().len(), 0);
}

#[test]
fn set_fill_solid_and_none() {
    let scene = VectorData::from_subpaths(vec![triangle()]);
    let out = set_vector_data_fill(
        scene,
        FillType::Solid,
        Some(color(1., 0., 0., 1.)),
        GradientType::Linear,
        DVec2::ZERO,
        DVec2::ONE,
        DAffine2::IDENTITY,
        vec![],
    );
    match &out.style.fill {
        Fill::Solid(c) => assert!((c.red.v.x - 1.).abs() < 1e-12),
        _ => panic!("expected a solid fill"),
    }
    let out2 = set_vector_data_fill(
        out,
        FillType::Solid,
        None,
        GradientType::Linear,
        DVec2::ZERO,
        DVec2::ONE,
        DAffine2::IDENTITY,
        vec![],
    );
    assert!(matches!(out2.style.fill, Fill::NoFill));
}

#[test]
fn set_fill_gradient_ignores_solid_color() {
    let scene = VectorData::from_subpaths(vec![triangle()]);
    let stops = vec![(carried(0.), Some(color(0., 0., 0., 1.))), (carried(1.), None)];
    let out = set_vector_data_fill(
        scene,
        FillType::Gradient,
        Some(color(1., 0., 0., 1.)),
        GradientType::Radial,
        DVec2::new(0., 0.),
        DVec2::new(1., 0.),
        DAffine2::IDENTITY,
        stops,
    );
    match &out.style.fill {
        Fill::Gradient(g) => {
            assert!(matches!(g.gradient_type, GradientType::Radial));
            assert_eq!(g.positions.len(), 2);
            assert!((g.positions[1].0.v.x - 1.).abs() < 1e-12);
        }
        _ => panic!("expected a gradient fill"),
    }
}

#[test]
fn set_stroke_replaces_wholesale() {
    let scene = VectorData::from_subpaths(vec![triangle()]);
    let out = set_vector_data_stroke(
        scene,
        Some(color(0., 0., 1., 1.)),
        carried(2.5),
        vec![carried(1.), carried(0.5)],
        carried(0.25),
        LineCap::Round,
        LineJoin::Bevel,
        carried(4.),
    );
    let stroke = out.style.stroke.as_ref().expect("stroke was set");
    assert!((stroke.weight.v.x - 2.5).abs() < 1e-12);
    assert_eq!(stroke.dash_lengths.len(), 2);
    assert!((stroke.dash_offset.v.x - 0.25).abs() < 1e-12);
    assert!(matches!(stroke.line_cap, LineCap::Round));
    assert!(matches!(stroke.line_join, LineJoin::Bevel));
    assert!((stroke.line_join_miter_limit.v.x - 4.).abs() < 1e-12);
    assert!(matches!(out.style.fill, Fill::NoFill));
}

#[test]
fn copy_to_points_without_instance_box_uses_zero_offset() {
    let anchors = vec![DVec2::new(4., 4.)];
    let points = VectorData::from_subpaths(vec![Path::from_anchors(&anchors, false)]);
    let lone = Path::from_anchors(&vec![DVec2::new(1., 1.)], false);
    let instance = VectorData::from_subpaths(vec![lone]);
    let out: VectorData = copy_to_points(&points, &instance);
    assert_eq!(out.subpaths.len(), 1);
    let got = out.subpaths[0].anchors();
    assert_eq!(got.len(), 1);
    assert!(near(got[0], DVec2::new(5., 5.)));
}

#[test]
fn node_values_behave_like_their_functions() {
    let fill_node = SetFillNode {
        fill_type: FillType::Solid,
        solid_color: Some(color(0., 1., 0., 1.)),
        gradient_type: GradientType::Linear,
        start: DVec2::ZERO,
        end: DVec2::ONE,
        transform: DAffine2::IDENTITY,
        positions: vec![],
    };
    let filled = fill_node.eval(VectorData::from_subpaths(vec![triangle()]));
    assert!(matches!(filled.style.fill, Fill::Solid(_)));

    let stroke_node = SetStrokeNode {
        color: None,
        weight: carried(1.5),
        dash_lengths: vec![],
        dash_offset: carried(0.),
        line_cap: LineCap::Butt,
        line_join: LineJoin::Miter,
        miter_limit: carried(4.),
    };
    let stroked = stroke_node.eval(filled);
    assert!((stroked.style.stroke.as_ref().unwrap().weight.v.x - 1.5).abs() < 1e-12);

    let circular = CircularRepeatNode { angle_offset: carried(0.), radius: carried(5.), count: 2 };
    let ring = circular.eval(VectorData::from_subpaths(vec![square()])).unwrap();
    assert_eq!(ring.subpaths.len(), 2);

    let boxed = BoundingBoxNode.eval(VectorData::from_subpaths(vec![square()])).unwrap();
    assert_eq!(boxed.subpaths.len(), 1);

    let points = VectorData::from_subpaths(vec![Path::from_anchors(
        &vec![DVec2::new(0., 0.), DVec2::new(9., 9.)],
        false,
    )]);
    let instance = VectorData::from_subpaths(vec![square()]);
    let copied: VectorData = CopyToPoints.eval(&points, &instance);
    assert_eq!(copied.subpaths.len(), 2);
}

#[test]
fn copy_to_points_accepts_a_group_instance() {
    let points = VectorData::from_subpaths(vec![Path::from_anchors(
        &vec![DVec2::new(10., 0.)],
        false,
    )]);
    let mut inner = VectorData::from_subpaths(vec![square()]);
    inner.transform = DAffine2::from_translation(DVec2::new(1., 1.));
    let instance = GraphicGroup {
        elements: vec![GraphicElement::Vector(inner)],
        transform: DAffine2::IDENTITY,
        alpha_blending: AlphaBlending { blend_mode: BlendMode::Normal, opacity: carried(1.) },
    };
    let out: GraphicGroup = copy_to_points(&points, &instance);
    assert_eq!(out.elements.len(), 1);
    match &out.elements[0] {
        GraphicElement::Vector(v) => {
            // instance box spans (1,1)..(3,3), so its center (2,2) must land
            // on the anchor (10,0): the merged copy is shifted by (8,-2).
            let expected = DAffine2::from_translation(DVec2::new(8., -2.))
                * DAffine2::from_translation(DVec2::new(1., 1.));
            assert!(v.transform.abs_diff_eq(expected, 1e-9));
        }
        _ => panic!("expected a flat vector element"),
    }
}

#[test]
fn repeat_steps_scale_with_the_copy_index() {
    let scene = VectorData::from_subpaths(vec![triangle()]);
    let out = repeat_vector_data(scene, DVec2::new(5., 0.), 3);
    assert_eq!(out.subpaths.len(), 3);
    let original = triangle().anchors();
    let third = out.subpaths[2].anchors();
    for k in 0..3 {
        assert!(near(third[k], original[k] + DVec2::new(10., 0.)));
    }
}

#[test]
fn sample_adaptive_rounds_the_count() {
    let line = Path::from_anchors(&vec![DVec2::new(0., 0.), DVec2::new(10., 0.)], false);
    let scene = VectorData::from_subpaths(vec![line]);
    // 10 / 4 = 2.5 rounds up to three intervals, so four samples.
    let out = sample_points(scene, carried(4.), carried(0.), carried(0.), true);
    assert_eq!(out.subpaths[0].anchors().len(), 4);
}
