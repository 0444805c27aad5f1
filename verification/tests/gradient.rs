use rsvg::coord_units::{Frame, PaintServerUnits};
use rsvg::document::{AcquireError, AcquiredNodes, Document, Element, NodeData, NodeHandle};
use rsvg::geometry::{BoundingBox, Rect, Transform};
use rsvg::gradient::{
    gradient_add_color_stops_from_node, gradient_from_node, gradient_linear_new,
    gradient_radial_new, gradient_resolve_fallbacks_and_set_pattern,
    paint_server_units_from_gboolean, resolve_gradient, ColorStop, Extend, Gradient,
    GradientCommon, GradientGeometry, GradientVariant, NodeFallbackSource, NodeStop, PaintStop,
};
use rsvg::length::{Length, LengthDir, LengthUnit};
use rsvg::number::Number;
use rsvg::pattern::Pattern;

fn n(x: f64) -> Number {
    Number::from_bits(x.to_bits())
}

fn percent(x: f64, dir: LengthDir) -> Length {
    Length::new(n(x), LengthUnit::Percent, dir)
}

fn px(x: f64, dir: LengthDir) -> Length {
    Length::new(n(x), LengthUnit::Px, dir)
}

fn element(id: &str, element: Element) -> NodeData {
    NodeData { id: Some(id.to_string()), element: Some(element), children: Vec::new(), in_error: false }
}

fn stop(offset: f64, rgba: u32) -> NodeData {
    NodeData {
        id: None,
        element: Some(Element::Stop(NodeStop { offset: n(offset), rgba })),
        children: Vec::new(),
        in_error: false,
    }
}

fn linear(fallback: Option<&str>) -> Gradient {
    gradient_linear_new(None, None, None, None, None, None, None, fallback.map(|s| s.to_string()))
}

fn radial(fallback: Option<&str>) -> Gradient {
    gradient_radial_new(
        None,
        None,
        None,
        None,
        None,
        None,
        None,
        None,
        fallback.map(|s| s.to_string()),
    )
}

fn offsets(g: &Gradient) -> Vec<f64> {
    g.common.stops.as_ref().unwrap().iter().map(|s| f64::from_bits(s.offset.to_bits())).collect()
}

fn resolve(document: &Document, gradient: &Gradient) -> Result<Gradient, AcquireError> {
    let mut acquired = AcquiredNodes::new(document);
    let mut source = NodeFallbackSource::new();
    resolve_gradient(gradient, &mut source, &mut acquired)
}

#[test]
fn a_stop_before_the_last_is_raised_to_it() {
    let mut g = linear(None);
    g.add_color_stop(n(0.5), 0x11223344);
    g.add_color_stop(n(0.2), 0x55667788);
    assert_eq!(offsets(&g), vec![0.5, 0.5]);
    assert_eq!(
        g.common.stops,
        Some(vec![
            ColorStop { offset: n(0.5), rgba: 0x11223344 },
            ColorStop { offset: n(0.5), rgba: 0x55667788 },
        ])
    );
}

#[test]
fn stops_in_order_are_kept() {
    let mut g = radial(None);
    assert!(g.common.stops.is_none());
    g.add_color_stop(n(0.0), 1);
    g.add_color_stop(n(0.25), 2);
    g.add_color_stop(n(0.25), 3);
    g.add_color_stop(n(1.0), 4);
    g.add_color_stop(n(0.75), 5);
    assert_eq!(offsets(&g), vec![0.0, 0.25, 0.25, 1.0, 1.0]);
}

#[test]
fn a_first_stop_below_zero_is_raised_to_zero() {
    let mut common = GradientCommon::new(None, None, None, None, None);
    common.add_color_stop(n(-0.5), 7);
    assert_eq!(common.stops, Some(vec![ColorStop { offset: n(0.0), rgba: 7 }]));
}

#[test]
fn linear_defaults() {
    let mut g = linear(Some("elsewhere"));
    assert!(!g.is_resolved());
    g.resolve_from_defaults();
    assert!(g.is_resolved());
    assert_eq!(g.common.units, Some(PaintServerUnits::ObjectBoundingBox));
    assert_eq!(g.common.affine, Some(Transform::identity()));
    assert_eq!(g.common.spread, Some(Extend::Pad));
    assert_eq!(g.common.fallback, None);
    assert_eq!(g.common.stops, Some(Vec::new()));
    assert_eq!(
        g.variant,
        GradientVariant::Linear {
            x1: Some(percent(0.0, LengthDir::Horizontal)),
            y1: Some(percent(0.0, LengthDir::Vertical)),
            x2: Some(percent(1.0, LengthDir::Horizontal)),
            y2: Some(percent(0.0, LengthDir::Vertical)),
        }
    );
}

#[test]
fn radial_defaults_put_the_focus_at_the_centre() {
    let mut g = radial(None);
    g.resolve_from_defaults();
    assert_eq!(
        g.variant,
        GradientVariant::Radial {
            cx: Some(percent(0.5, LengthDir::Horizontal)),
            cy: Some(percent(0.5, LengthDir::Vertical)),
            r: Some(percent(0.5, LengthDir::Both)),
            fx: Some(percent(0.5, LengthDir::Horizontal)),
            fy: Some(percent(0.5, LengthDir::Vertical)),
        }
    );

    let mut g = gradient_radial_new(
        Some(px(30.0, LengthDir::Horizontal)),
        None,
        None,
        None,
        Some(px(9.0, LengthDir::Vertical)),
        None,
        None,
        None,
        None,
    );
    g.resolve_from_defaults();
    assert_eq!(
        g.variant,
        GradientVariant::Radial {
            cx: Some(px(30.0, LengthDir::Horizontal)),
            cy: Some(percent(0.5, LengthDir::Vertical)),
            r: Some(percent(0.5, LengthDir::Both)),
            fx: Some(px(30.0, LengthDir::Horizontal)),
            fy: Some(px(9.0, LengthDir::Vertical)),
        }
    );
}

#[test]
fn a_fallback_gradient_fills_what_is_not_stated() {
    let mut own = gradient_linear_new(
        Some(px(1.0, LengthDir::Horizontal)),
        None,
        None,
        None,
        Some(0),
        None,
        None,
        Some("b".to_string()),
    );
    let mut other = gradient_linear_new(
        Some(px(2.0, LengthDir::Horizontal)),
        Some(px(3.0, LengthDir::Vertical)),
        None,
        None,
        Some(1),
        None,
        Some(Extend::Reflect),
        Some("c".to_string()),
    );
    other.add_color_stop(n(0.1), 9);
    own.resolve_from_fallback(&other);
    assert_eq!(own.common.units, Some(PaintServerUnits::UserSpaceOnUse));
    assert_eq!(own.common.spread, Some(Extend::Reflect));
    assert_eq!(own.common.affine, None);
    assert_eq!(own.common.fallback, Some("c".to_string()));
    assert_eq!(own.common.stops, Some(vec![ColorStop { offset: n(0.1), rgba: 9 }]));
    assert_eq!(
        own.variant,
        GradientVariant::Linear {
            x1: Some(px(1.0, LengthDir::Horizontal)),
            y1: Some(px(3.0, LengthDir::Vertical)),
            x2: None,
            y2: None,
        }
    );
}

#[test]
fn nothing_of_the_other_kind_is_taken() {
    let mut own = linear(None);
    let other = gradient_radial_new(
        Some(px(1.0, LengthDir::Horizontal)),
        None,
        None,
        None,
        None,
        None,
        None,
        Some(Extend::Repeat),
        None,
    );
    own.resolve_from_fallback(&other);
    assert_eq!(own.variant, GradientVariant::Linear { x1: None, y1: None, x2: None, y2: None });
    assert_eq!(own.common.spread, Some(Extend::Repeat));
}

#[test]
fn units_from_a_truth_value() {
    assert_eq!(paint_server_units_from_gboolean(0), PaintServerUnits::UserSpaceOnUse);
    assert_eq!(paint_server_units_from_gboolean(1), PaintServerUnits::ObjectBoundingBox);
    assert_eq!(paint_server_units_from_gboolean(-3), PaintServerUnits::ObjectBoundingBox);
    assert_eq!(PaintServerUnits::default(), PaintServerUnits::ObjectBoundingBox);
}

#[test]
fn stops_are_gathered_from_the_children() {
    let mut document = Document::new();
    let s1 = document.add_node(stop(0.5, 0xff0000ff));
    let other = document.add_node(element("other", Element::Other));
    let s2 = document.add_node(stop(0.2, 0x00ff00ff));
    let mut bad = stop(0.9, 0x0000ffff);
    bad.in_error = true;
    let bad = document.add_node(bad);
    let s3 = document.add_node(stop(1.0, 0x000000ff));
    let mut g = element("g", Element::Gradient(linear(None)));
    g.children = vec![s1, other, NodeHandle(1000), s2, bad, s3];
    let g = document.add_node(g);

    let mut gradient = linear(None);
    gradient_add_color_stops_from_node(&mut gradient, &document, g);
    assert_eq!(
        gradient.common.stops,
        Some(vec![
            ColorStop { offset: n(0.5), rgba: 0xff0000ff },
            ColorStop { offset: n(0.5), rgba: 0x00ff00ff },
        ])
    );

    let found = gradient_from_node(&document, g).unwrap();
    assert_eq!(found.common.stops, gradient.common.stops);
    assert!(gradient_from_node(&document, s1).is_none());
    assert!(gradient_from_node(&document, NodeHandle(1000)).is_none());

    let mut untouched = linear(None);
    gradient_add_color_stops_from_node(&mut untouched, &document, other);
    assert_eq!(untouched.common.stops, None);
}

#[test]
fn chain_of_three_takes_each_attribute_from_the_first_that_states_it() {
    let mut document = Document::new();
    document.add_node(element(
        "b",
        Element::Gradient(gradient_radial_new(
            None,
            None,
            None,
            None,
            None,
            None,
            None,
            Some(Extend::Repeat),
            Some("c".to_string()),
        )),
    ));
    let s = document.add_node(stop(0.3, 0x01020304));
    let mut c = element(
        "c",
        Element::Gradient(gradient_linear_new(
            Some(px(5.0, LengthDir::Horizontal)),
            None,
            None,
            None,
            Some(0),
            None,
            Some(Extend::Reflect),
            None,
        )),
    );
    c.children.push(s);
    document.add_node(c);

    let a = linear(Some("b"));
    let resolved = resolve(&document, &a).unwrap();
    assert!(resolved.is_resolved());
    assert_eq!(resolved.common.spread, Some(Extend::Repeat));
    assert_eq!(resolved.common.units, Some(PaintServerUnits::UserSpaceOnUse));
    assert_eq!(resolved.common.affine, Some(Transform::identity()));
    assert_eq!(resolved.common.stops, Some(vec![ColorStop { offset: n(0.3), rgba: 0x01020304 }]));
    assert_eq!(
        resolved.variant,
        GradientVariant::Linear {
            x1: Some(px(5.0, LengthDir::Horizontal)),
            y1: Some(percent(0.0, LengthDir::Vertical)),
            x2: Some(percent(1.0, LengthDir::Horizontal)),
            y2: Some(percent(0.0, LengthDir::Vertical)),
        }
    );
}

#[test]
fn a_cycle_of_gradients_is_an_error() {
    let mut document = Document::new();
    let a = document.add_node(element("a", Element::Gradient(linear(Some("b")))));
    let b = document.add_node(element("b", Element::Gradient(linear(Some("a")))));
    assert_eq!(resolve(&document, &linear(Some("b"))).err(), Some(AcquireError::CircularReference(b)));
    assert_eq!(resolve(&document, &linear(Some("a"))).err(), Some(AcquireError::CircularReference(a)));
}

#[test]
fn too_long_a_chain_of_gradients_is_an_error() {
    let mut document = Document::new();
    document.add_node(element("a", Element::Gradient(linear(Some("b")))));
    document.add_node(element("b", Element::Gradient(linear(None))));
    let mut acquired = AcquiredNodes::with_limit(&document, 1);
    let mut source = NodeFallbackSource::new();
    let result = resolve_gradient(&linear(Some("a")), &mut source, &mut acquired);
    assert_eq!(result.err(), Some(AcquireError::MaxReferencesExceeded));
    assert_eq!(source.acquired_nodes.0, vec![NodeHandle(0)]);

    let mut acquired = AcquiredNodes::with_limit(&document, 2);
    let mut source = NodeFallbackSource::new();
    let result = resolve_gradient(&linear(Some("a")), &mut source, &mut acquired);
    assert!(result.unwrap().is_resolved());
    assert_eq!(source.acquired_nodes.0, vec![NodeHandle(0), NodeHandle(1)]);
    assert_eq!(acquired.num_elements_acquired, 2);
}

#[test]
fn a_reference_that_gives_no_gradient_gives_the_defaults() {
    let mut document = Document::new();
    document.add_node(element("p", Element::Pattern(Pattern::new())));
    document.add_node(NodeData {
        id: Some("t".to_string()),
        element: None,
        children: Vec::new(),
        in_error: false,
    });
    for name in ["p", "t", "missing"] {
        let start = gradient_linear_new(
            None,
            None,
            None,
            None,
            None,
            None,
            Some(Extend::Reflect),
            Some(name.to_string()),
        );
        let resolved = resolve(&document, &start).unwrap();
        assert!(resolved.is_resolved());
        assert_eq!(resolved.common.spread, Some(Extend::Reflect));
        assert_eq!(resolved.common.units, Some(PaintServerUnits::ObjectBoundingBox));
        assert_eq!(resolved.common.stops, Some(Vec::new()));
        assert_eq!(resolved.common.fallback, None);
    }
}

#[test]
fn get_fallback_remembers_the_nodes_it_hands_out() {
    let mut document = Document::new();
    let g = document.add_node(element("g", Element::Gradient(radial(None))));
    let p = document.add_node(element("p", Element::Pattern(Pattern::new())));
    let mut acquired = AcquiredNodes::new(&document);
    let mut source = NodeFallbackSource::new();
    let found = source.get_fallback(&mut acquired, &"g".to_string()).unwrap().unwrap();
    assert_eq!(found.variant, radial(None).variant);
    assert!(source.get_fallback(&mut acquired, &"p".to_string()).unwrap().is_none());
    assert!(source.get_fallback(&mut acquired, &"nowhere".to_string()).unwrap().is_none());
    assert_eq!(source.acquired_nodes.0, vec![g, p]);
    assert_eq!(
        source.get_fallback(&mut acquired, &"p".to_string()).err(),
        Some(AcquireError::CircularReference(p))
    );
    assert_eq!(acquired.num_elements_acquired, 4);
}

#[test]
fn stops_are_scaled_by_the_opacity() {
    let mut g = linear(None);
    g.add_color_stop(n(0.0), 0x11223380);
    g.add_color_stop(n(1.0), 0xff00ffff);
    let mut pattern = vec![PaintStop { offset: n(0.5), red: 1, green: 2, blue: 3, alpha: 4 }];
    g.add_color_stops_to_pattern(&mut pattern, 0x40);
    assert_eq!(
        pattern,
        vec![
            PaintStop { offset: n(0.5), red: 1, green: 2, blue: 3, alpha: 4 },
            PaintStop { offset: n(0.0), red: 0x11, green: 0x22, blue: 0x33, alpha: 0x80 * 0x40 },
            PaintStop { offset: n(1.0), red: 0xff, green: 0x00, blue: 0xff, alpha: 0xff * 0x40 },
        ]
    );
    let mut opaque = Vec::new();
    g.add_color_stops_to_pattern(&mut opaque, 255);
    assert_eq!(opaque[1].alpha, 65025);
}

#[test]
fn layout_of_a_resolved_gradient() {
    let mut g = gradient_radial_new(
        Some(px(0.0, LengthDir::Horizontal)),
        Some(px(0.0, LengthDir::Vertical)),
        Some(px(10.0, LengthDir::Both)),
        Some(px(20.0, LengthDir::Horizontal)),
        Some(px(0.0, LengthDir::Vertical)),
        Some(0),
        None,
        Some(Extend::Repeat),
        None,
    );
    g.add_color_stop(n(0.0), 0x000000ff);
    g.resolve_from_defaults();
    let layout = g.to_user_space(255, &BoundingBox { rect: None }).unwrap();
    assert_eq!(layout.frame, Frame::UserSpaceOnUse);
    assert_eq!(layout.spread, Extend::Repeat);
    assert_eq!(layout.affine, Transform::identity());
    assert_eq!(
        layout.geometry,
        GradientGeometry::Radial {
            cx: px(0.0, LengthDir::Horizontal),
            cy: px(0.0, LengthDir::Vertical),
            r: px(10.0, LengthDir::Both),
            fx: px(20.0, LengthDir::Horizontal),
            fy: px(0.0, LengthDir::Vertical),
        }
    );
    assert_eq!(
        layout.stops,
        vec![PaintStop { offset: n(0.0), red: 0, green: 0, blue: 0, alpha: 65025 }]
    );
}

#[test]
fn a_gradient_in_a_missing_bounding_box_paints_nothing() {
    let mut g = linear(None);
    g.resolve_from_defaults();
    assert!(g.to_user_space(255, &BoundingBox { rect: None }).is_none());
    let bb = Rect { x0: n(0.0), y0: n(0.0), x1: n(4.0), y1: n(2.0) };
    let layout = g.to_user_space(255, &BoundingBox { rect: Some(bb) }).unwrap();
    assert_eq!(layout.frame, Frame::ObjectBoundingBox(bb));
    assert_eq!(
        layout.geometry,
        GradientGeometry::Linear {
            x1: percent(0.0, LengthDir::Horizontal),
            y1: percent(0.0, LengthDir::Vertical),
            x2: percent(1.0, LengthDir::Horizontal),
            y2: percent(0.0, LengthDir::Vertical),
        }
    );
    assert!(layout.stops.is_empty());
}

#[test]
fn resolving_and_laying_out_in_one() {
    let mut document = Document::new();
    let s = document.add_node(stop(0.5, 0x0a0b0c0d));
    let mut b = element(
        "b",
        Element::Gradient(gradient_linear_new(None, None, None, None, Some(0), None, None, None)),
    );
    b.children.push(s);
    document.add_node(b);
    document.add_node(element("loop", Element::Gradient(linear(Some("loop")))));

    let mut acquired = AcquiredNodes::new(&document);
    let layout = gradient_resolve_fallbacks_and_set_pattern(
        &linear(Some("b")),
        &mut acquired,
        2,
        &BoundingBox { rect: None },
    )
    .unwrap()
    .unwrap();
    assert_eq!(layout.frame, Frame::UserSpaceOnUse);
    assert_eq!(
        layout.stops,
        vec![PaintStop { offset: n(0.5), red: 0x0a, green: 0x0b, blue: 0x0c, alpha: 0x0d * 2 }]
    );

    let failed = gradient_resolve_fallbacks_and_set_pattern(
        &linear(Some("loop")),
        &mut acquired,
        255,
        &BoundingBox { rect: None },
    );
    assert_eq!(failed.err(), Some(AcquireError::CircularReference(NodeHandle(2))));
}

#[test]
fn clones_are_equal_in_every_field() {
    let mut g = gradient_linear_new(
        Some(px(1.0, LengthDir::Horizontal)),
        None,
        None,
        None,
        Some(1),
        Some(Transform::identity()),
        Some(Extend::Transparent),
        Some("x".to_string()),
    );
    g.add_color_stop(n(0.4), 3);
    let copy = g.clone();
    assert_eq!(copy.common.units, g.common.units);
    assert_eq!(copy.common.affine, g.common.affine);
    assert_eq!(copy.common.spread, g.common.spread);
    assert_eq!(copy.common.fallback, g.common.fallback);
    assert_eq!(copy.common.stops, g.common.stops);
    assert_eq!(copy.variant, g.variant);
    assert_eq!(g.common.clone_stops(), g.common.stops);
}
