use rsvg::coord_units::{CoordUnits, Frame, PatternContentUnits, PatternUnits};
use rsvg::document::{AcquireError, AcquiredNodes, Document, Element, NodeData, NodeHandle};
use rsvg::geometry::{
    Align, Align1D, AspectRatio, BoundingBox, FitMode, Rect, Transform, ViewBox,
};
use rsvg::gradient::{gradient_linear_new, NodeStop};
use rsvg::length::{Length, LengthDir, LengthUnit};
use rsvg::number::Number;
use rsvg::pattern::{
    Children, Common, ContentFrame, ElementError, Pattern, PatternAttribute, ResolvedPattern,
    UnresolvedChildren, UnresolvedPattern, UserSpacePattern,
};

fn n(x: f64) -> Number {
    Number::from_bits(x.to_bits())
}

fn px(x: f64, dir: LengthDir) -> Length {
    Length::new(n(x), LengthUnit::Px, dir)
}

fn rect(x0: f64, y0: f64, x1: f64, y1: f64) -> Rect {
    Rect { x0: n(x0), y0: n(y0), x1: n(x1), y1: n(y1) }
}

fn pattern(common: Common, fallback: Option<&str>) -> Pattern {
    let mut p = Pattern::new();
    p.common = common;
    p.fallback = fallback.map(|s| s.to_string());
    p
}

fn element(id: &str, element: Element) -> NodeData {
    NodeData { id: Some(id.to_string()), element: Some(element), children: Vec::new(), in_error: false }
}

fn text() -> NodeData {
    NodeData { id: None, element: None, children: Vec::new(), in_error: false }
}

fn pattern_at(document: &Document, node: NodeHandle) -> &Pattern {
    match document.element(node) {
        Some(Element::Pattern(p)) => p,
        _ => panic!("not a pattern"),
    }
}

fn resolve(document: &Document, node: NodeHandle) -> Result<ResolvedPattern, AcquireError> {
    let mut acquired = AcquiredNodes::new(document);
    pattern_at(document, node).init_resolved(node, &mut acquired)
}

fn defaults(children: Children) -> ResolvedPattern {
    ResolvedPattern {
        units: PatternUnits(CoordUnits::ObjectBoundingBox),
        content_units: PatternContentUnits(CoordUnits::UserSpaceOnUse),
        vbox: None,
        preserve_aspect_ratio: AspectRatio {
            defer: false,
            align: Some(Align { x: Align1D::Mid, y: Align1D::Mid, fit: FitMode::Meet }),
        },
        transform: Transform {
            xx: n(1.0),
            yx: n(0.0),
            xy: n(0.0),
            yy: n(1.0),
            x0: n(0.0),
            y0: n(0.0),
        },
        x: px(0.0, LengthDir::Horizontal),
        y: px(0.0, LengthDir::Vertical),
        width: px(0.0, LengthDir::Horizontal),
        height: px(0.0, LengthDir::Vertical),
        children,
    }
}

#[test]
fn pattern_resolved_from_defaults_is_really_resolved() {
    let mut document = Document::new();
    let node = document.add_node(NodeData {
        id: None,
        element: Some(Element::Pattern(Pattern::new())),
        children: Vec::new(),
        in_error: false,
    });

    let unresolved = pattern_at(&document, node).get_unresolved(&document, node);
    let pattern = unresolved.pattern.resolve_from_defaults();
    assert!(pattern.is_resolved());
}

#[test]
fn a_new_pattern_states_nothing() {
    let p = Pattern::new();
    assert!(p.get_resolved().is_none());
    assert_eq!(p.common, Common::default());
    assert!(p.fallback.is_none());
    assert!(!p.common.is_resolved());
    let d = Pattern::default();
    assert_eq!(d.common, Common::default());
    assert!(d.fallback.is_none());
}

#[test]
fn defaults_are_the_stated_ones() {
    let unresolved =
        UnresolvedPattern { common: Common::default(), children: UnresolvedChildren::Unresolved };
    assert!(!unresolved.is_resolved());
    let filled = unresolved.resolve_from_defaults();
    assert_eq!(filled.children, UnresolvedChildren::ResolvedEmpty);
    assert_eq!(filled.into_resolved(), defaults(Children::Empty));
}

#[test]
fn defaults_keep_what_is_stated() {
    let common = Common {
        units: Some(PatternUnits(CoordUnits::UserSpaceOnUse)),
        x: Some(px(7.0, LengthDir::Horizontal)),
        vbox: Some(Some(ViewBox(rect(0.0, 0.0, 10.0, 20.0)))),
        ..Common::default()
    };
    let unresolved =
        UnresolvedPattern { common, children: UnresolvedChildren::WithChildren(NodeHandle(3)) };
    let resolved = unresolved.resolve_from_defaults().into_resolved();
    let mut expected = defaults(Children::WithChildren(NodeHandle(3)));
    expected.units = PatternUnits(CoordUnits::UserSpaceOnUse);
    expected.x = px(7.0, LengthDir::Horizontal);
    expected.vbox = Some(ViewBox(rect(0.0, 0.0, 10.0, 20.0)));
    assert_eq!(resolved, expected);
}

#[test]
fn fallback_fills_only_what_is_not_stated() {
    let own = UnresolvedPattern {
        common: Common { x: Some(px(1.0, LengthDir::Horizontal)), ..Common::default() },
        children: UnresolvedChildren::Unresolved,
    };
    let other = UnresolvedPattern {
        common: Common {
            x: Some(px(2.0, LengthDir::Horizontal)),
            y: Some(px(3.0, LengthDir::Vertical)),
            ..Common::default()
        },
        children: UnresolvedChildren::WithChildren(NodeHandle(9)),
    };
    let merged = own.resolve_from_fallback(&other);
    assert_eq!(merged.common.x, Some(px(1.0, LengthDir::Horizontal)));
    assert_eq!(merged.common.y, Some(px(3.0, LengthDir::Vertical)));
    assert_eq!(merged.common.width, None);
    assert_eq!(merged.children, UnresolvedChildren::WithChildren(NodeHandle(9)));
    assert!(!merged.is_resolved());
}

#[test]
fn children_merge() {
    let a = NodeHandle(1);
    let b = NodeHandle(2);
    assert_eq!(UnresolvedChildren::Unresolved.resolve_from_fallback(&UnresolvedChildren::Unresolved), UnresolvedChildren::Unresolved);
    assert_eq!(UnresolvedChildren::WithChildren(a).resolve_from_fallback(&UnresolvedChildren::Unresolved), UnresolvedChildren::WithChildren(a));
    assert_eq!(UnresolvedChildren::WithChildren(a).resolve_from_fallback(&UnresolvedChildren::WithChildren(b)), UnresolvedChildren::WithChildren(a));
    assert_eq!(UnresolvedChildren::Unresolved.resolve_from_fallback(&UnresolvedChildren::WithChildren(b)), UnresolvedChildren::WithChildren(b));
    assert_eq!(
        UnresolvedChildren::ResolvedEmpty.resolve_from_fallback(&UnresolvedChildren::WithChildren(b)),
        UnresolvedChildren::WithChildren(b)
    );
    assert_eq!(UnresolvedChildren::Unresolved.resolve_from_defaults(), UnresolvedChildren::ResolvedEmpty);
    assert_eq!(UnresolvedChildren::WithChildren(a).resolve_from_defaults(), UnresolvedChildren::WithChildren(a));
    assert!(!UnresolvedChildren::Unresolved.is_resolved());
    assert!(UnresolvedChildren::ResolvedEmpty.is_resolved());
    assert_eq!(UnresolvedChildren::ResolvedEmpty.to_resolved(), Children::Empty);
    assert_eq!(UnresolvedChildren::WithChildren(a).to_resolved(), Children::WithChildren(a));
}

#[test]
fn children_come_from_child_elements_only() {
    let mut document = Document::new();
    let child_text = document.add_node(text());
    let child_element = document.add_node(element("c", Element::Other));
    let mut with_text = element("t", Element::Pattern(Pattern::new()));
    with_text.children.push(child_text);
    let with_text = document.add_node(with_text);
    let mut with_element = element("e", Element::Pattern(Pattern::new()));
    with_element.children.push(child_text);
    with_element.children.push(child_element);
    let with_element = document.add_node(with_element);

    assert_eq!(UnresolvedChildren::from_node(&document, with_text), UnresolvedChildren::Unresolved);
    assert_eq!(
        UnresolvedChildren::from_node(&document, with_element),
        UnresolvedChildren::WithChildren(with_element)
    );
    assert_eq!(
        UnresolvedChildren::from_node(&document, NodeHandle(99)),
        UnresolvedChildren::Unresolved
    );
}

#[test]
fn chain_of_three_takes_the_attribute_from_the_last() {
    // A -> B -> C; only C states x.
    let mut document = Document::new();
    let a = document.add_node(element("a", Element::Pattern(pattern(Common::default(), Some("b")))));
    document.add_node(element("b", Element::Pattern(pattern(Common::default(), Some("c")))));
    document.add_node(element(
        "c",
        Element::Pattern(pattern(
            Common { x: Some(px(5.0, LengthDir::Horizontal)), ..Common::default() },
            None,
        )),
    ));

    let resolved = resolve(&document, a).unwrap();
    let mut expected = defaults(Children::Empty);
    expected.x = px(5.0, LengthDir::Horizontal);
    assert_eq!(resolved, expected);
}

#[test]
fn the_first_to_state_an_attribute_wins() {
    let mut document = Document::new();
    let a = document.add_node(element(
        "a",
        Element::Pattern(pattern(
            Common { y: Some(px(1.0, LengthDir::Vertical)), ..Common::default() },
            Some("b"),
        )),
    ));
    document.add_node(element(
        "b",
        Element::Pattern(pattern(
            Common {
                y: Some(px(2.0, LengthDir::Vertical)),
                width: Some(px(20.0, LengthDir::Horizontal)),
                ..Common::default()
            },
            Some("c"),
        )),
    ));
    let child = document.add_node(element("child", Element::Other));
    let mut c = element(
        "c",
        Element::Pattern(pattern(
            Common {
                width: Some(px(30.0, LengthDir::Horizontal)),
                height: Some(px(33.0, LengthDir::Vertical)),
                units: Some(PatternUnits(CoordUnits::UserSpaceOnUse)),
                ..Common::default()
            },
            None,
        )),
    );
    c.children.push(child);
    let c = document.add_node(c);

    let resolved = resolve(&document, a).unwrap();
    let mut expected = defaults(Children::WithChildren(c));
    expected.y = px(1.0, LengthDir::Vertical);
    expected.width = px(20.0, LengthDir::Horizontal);
    expected.height = px(33.0, LengthDir::Vertical);
    expected.units = PatternUnits(CoordUnits::UserSpaceOnUse);
    assert_eq!(resolved, expected);
}

#[test]
fn a_cycle_is_an_error() {
    // A -> B -> A
    let mut document = Document::new();
    let a = document.add_node(element("a", Element::Pattern(pattern(Common::default(), Some("b")))));
    let b = document.add_node(element("b", Element::Pattern(pattern(Common::default(), Some("a")))));

    assert_eq!(resolve(&document, a), Err(AcquireError::CircularReference(b)));
    assert_eq!(resolve(&document, b), Err(AcquireError::CircularReference(a)));
}

#[test]
fn a_pattern_that_refers_to_itself_is_an_error() {
    let mut document = Document::new();
    let a = document.add_node(element("a", Element::Pattern(pattern(Common::default(), Some("a")))));
    assert_eq!(resolve(&document, a), Err(AcquireError::CircularReference(a)));
}

#[test]
fn too_long_a_chain_is_an_error() {
    let mut document = Document::new();
    let a = document.add_node(element("a", Element::Pattern(pattern(Common::default(), Some("b")))));
    document.add_node(element("b", Element::Pattern(pattern(Common::default(), Some("c")))));
    document.add_node(element("c", Element::Pattern(pattern(Common::default(), None))));

    let mut acquired = AcquiredNodes::with_limit(&document, 1);
    let result = pattern_at(&document, a).init_resolved(a, &mut acquired);
    assert_eq!(result, Err(AcquireError::MaxReferencesExceeded));
    assert_eq!(acquired.num_elements_acquired, 1);

    let mut acquired = AcquiredNodes::with_limit(&document, 2);
    let result = pattern_at(&document, a).init_resolved(a, &mut acquired);
    assert_eq!(result, Ok(defaults(Children::Empty)));
    assert_eq!(acquired.num_elements_acquired, 2);
}

#[test]
fn a_reference_to_another_kind_of_element_is_an_error() {
    let mut document = Document::new();
    let a = document.add_node(element("a", Element::Pattern(pattern(Common::default(), Some("g")))));
    document.add_node(element(
        "g",
        Element::Gradient(gradient_linear_new(None, None, None, None, None, None, None, None)),
    ));
    assert_eq!(resolve(&document, a), Err(AcquireError::InvalidLinkType("g".to_string())));

    let mut document = Document::new();
    let a = document.add_node(element("a", Element::Pattern(pattern(Common::default(), Some("s")))));
    document.add_node(element("s", Element::Stop(NodeStop { offset: n(0.0), rgba: 0 })));
    assert_eq!(resolve(&document, a), Err(AcquireError::InvalidLinkType("s".to_string())));
}

#[test]
fn a_reference_to_nothing_gives_the_defaults() {
    let mut document = Document::new();
    let a = document.add_node(element(
        "a",
        Element::Pattern(pattern(
            Common { x: Some(px(4.0, LengthDir::Horizontal)), ..Common::default() },
            Some("missing"),
        )),
    ));
    let mut expected = defaults(Children::Empty);
    expected.x = px(4.0, LengthDir::Horizontal);
    assert_eq!(resolve(&document, a), Ok(expected));
}

#[test]
fn a_reference_to_what_is_no_element_gives_the_defaults() {
    let mut document = Document::new();
    let a = document.add_node(element("a", Element::Pattern(pattern(Common::default(), Some("t")))));
    document.add_node(NodeData {
        id: Some("t".to_string()),
        element: None,
        children: Vec::new(),
        in_error: false,
    });
    assert_eq!(resolve(&document, a), Ok(defaults(Children::Empty)));
}

#[test]
fn a_complete_pattern_follows_no_reference() {
    let complete = Common {
        units: Some(PatternUnits(CoordUnits::UserSpaceOnUse)),
        content_units: Some(PatternContentUnits(CoordUnits::ObjectBoundingBox)),
        vbox: Some(None),
        preserve_aspect_ratio: Some(AspectRatio { defer: true, align: None }),
        transform: Some(Transform::identity()),
        x: Some(px(1.0, LengthDir::Horizontal)),
        y: Some(px(2.0, LengthDir::Vertical)),
        width: Some(px(3.0, LengthDir::Horizontal)),
        height: Some(px(4.0, LengthDir::Vertical)),
    };
    let mut document = Document::new();
    let child = document.add_node(element("child", Element::Other));
    let mut a = element("a", Element::Pattern(pattern(complete, Some("a"))));
    a.children.push(child);
    let a = document.add_node(a);

    let mut acquired = AcquiredNodes::new(&document);
    let resolved = pattern_at(&document, a).init_resolved(a, &mut acquired).unwrap();
    assert_eq!(acquired.num_elements_acquired, 0);
    assert_eq!(resolved.units, PatternUnits(CoordUnits::UserSpaceOnUse));
    assert_eq!(resolved.content_units, PatternContentUnits(CoordUnits::ObjectBoundingBox));
    assert_eq!(resolved.preserve_aspect_ratio, AspectRatio { defer: true, align: None });
    assert_eq!(resolved.height, px(4.0, LengthDir::Vertical));
    assert_eq!(resolved.children, Children::WithChildren(a));
}

#[test]
fn no_children_anywhere_paints_nothing() {
    let mut document = Document::new();
    let a = document.add_node(element("a", Element::Pattern(pattern(Common::default(), Some("b")))));
    document.add_node(element(
        "b",
        Element::Pattern(pattern(
            Common { units: Some(PatternUnits(CoordUnits::UserSpaceOnUse)), ..Common::default() },
            None,
        )),
    ));
    let resolved = resolve(&document, a).unwrap();
    assert_eq!(resolved.children, Children::Empty);
    assert_eq!(resolved.node_with_children(), None);
    let bbox = BoundingBox { rect: Some(rect(0.0, 0.0, 10.0, 10.0)) };
    assert_eq!(resolved.to_user_space(&bbox), None);
}

#[test]
fn resolving_twice_gives_what_was_kept() {
    let mut document = Document::new();
    document.add_node(element(
        "b",
        Element::Pattern(pattern(
            Common { x: Some(px(5.0, LengthDir::Horizontal)), ..Common::default() },
            None,
        )),
    ));
    let mut a = pattern(Common::default(), Some("b"));

    let mut acquired = AcquiredNodes::new(&document);
    let first = a.resolve(NodeHandle(7), &mut acquired).unwrap();
    assert_eq!(first.x, px(5.0, LengthDir::Horizontal));
    assert_eq!(acquired.num_elements_acquired, 1);

    let second = a.resolve(NodeHandle(7), &mut acquired).unwrap();
    assert_eq!(second, first);
    assert_eq!(acquired.num_elements_acquired, 1);

    // Nothing is looked up again, so another document makes no difference.
    let other = Document::new();
    let mut acquired = AcquiredNodes::new(&other);
    let third = a.resolve(NodeHandle(0), &mut acquired).unwrap();
    assert_eq!(third, first);
    assert_eq!(acquired.num_elements_acquired, 0);
    assert_eq!(a.get_resolved(), Some(first));
}

#[test]
fn a_failure_is_not_kept() {
    let mut document = Document::new();
    document.add_node(element("a", Element::Pattern(pattern(Common::default(), Some("a")))));
    let mut a = pattern(Common::default(), Some("a"));

    let mut acquired = AcquiredNodes::with_limit(&document, 0);
    assert_eq!(a.resolve(NodeHandle(0), &mut acquired), Err(AcquireError::MaxReferencesExceeded));
    assert!(a.get_resolved().is_none());

    let mut acquired = AcquiredNodes::new(&document);
    assert_eq!(
        a.resolve(NodeHandle(0), &mut acquired),
        Err(AcquireError::CircularReference(NodeHandle(0)))
    );
    assert!(a.get_resolved().is_none());
}

#[test]
fn layout_in_the_bounding_box() {
    let node = NodeHandle(4);
    let resolved = defaults(Children::WithChildren(node));
    let bb = rect(1.0, 2.0, 11.0, 22.0);
    let layout = resolved.to_user_space(&BoundingBox { rect: Some(bb) }).unwrap();
    assert_eq!(
        layout,
        UserSpacePattern {
            x: resolved.x,
            y: resolved.y,
            width: resolved.width,
            height: resolved.height,
            tile: Frame::ObjectBoundingBox(bb),
            transform: resolved.transform,
            content: ContentFrame::Units(Frame::UserSpaceOnUse),
            node_with_children: node,
        }
    );
    assert_eq!(resolved.to_user_space(&BoundingBox { rect: None }), None);
}

#[test]
fn layout_with_a_view_box() {
    let node = NodeHandle(4);
    let mut resolved = defaults(Children::WithChildren(node));
    resolved.units = PatternUnits(CoordUnits::UserSpaceOnUse);
    resolved.content_units = PatternContentUnits(CoordUnits::ObjectBoundingBox);
    resolved.vbox = Some(ViewBox(rect(0.0, 0.0, 4.0, 4.0)));
    let layout = resolved.to_user_space(&BoundingBox { rect: None }).unwrap();
    assert_eq!(layout.tile, Frame::UserSpaceOnUse);
    assert_eq!(
        layout.content,
        ContentFrame::ViewBox(ViewBox(rect(0.0, 0.0, 4.0, 4.0)), resolved.preserve_aspect_ratio)
    );
    assert_eq!(layout.node_with_children, node);
}

#[test]
fn layout_with_content_in_the_bounding_box() {
    let node = NodeHandle(4);
    let mut resolved = defaults(Children::WithChildren(node));
    resolved.units = PatternUnits(CoordUnits::UserSpaceOnUse);
    resolved.content_units = PatternContentUnits(CoordUnits::ObjectBoundingBox);
    assert_eq!(resolved.to_user_space(&BoundingBox { rect: None }), None);
    let bb = rect(0.0, 0.0, 2.0, 3.0);
    let layout = resolved.to_user_space(&BoundingBox { rect: Some(bb) }).unwrap();
    assert_eq!(layout.tile, Frame::UserSpaceOnUse);
    assert_eq!(layout.content, ContentFrame::Units(Frame::ObjectBoundingBox(bb)));
}

#[test]
fn lookup_finds_the_first_node_with_the_identifier() {
    let mut document = Document::new();
    document.add_node(text());
    let first = document.add_node(element("x", Element::Other));
    document.add_node(element("x", Element::Other));
    document.add_node(element("y", Element::Other));
    assert_eq!(document.lookup_node(&"x".to_string()), Some(first));
    assert_eq!(document.lookup_node(&"y".to_string()), Some(NodeHandle(3)));
    assert_eq!(document.lookup_node(&"z".to_string()), None);
    assert!(document.is_element(first));
    assert!(!document.is_element(NodeHandle(0)));
    assert!(!document.is_element(NodeHandle(17)));
}

#[test]
fn acquire_counts_and_fails_as_stated() {
    let mut document = Document::new();
    let e = document.add_node(element("e", Element::Other));
    document.add_node(NodeData {
        id: Some("t".to_string()),
        element: None,
        children: Vec::new(),
        in_error: false,
    });
    let mut acquired = AcquiredNodes::with_limit(&document, 3);
    assert_eq!(acquired.acquire(&"e".to_string()), Ok(e));
    assert_eq!(
        acquired.acquire(&"nope".to_string()),
        Err(AcquireError::LinkNotFound("nope".to_string()))
    );
    assert_eq!(
        acquired.acquire(&"t".to_string()),
        Err(AcquireError::InvalidLinkType("t".to_string()))
    );
    assert_eq!(acquired.num_elements_acquired, 3);
    assert_eq!(acquired.acquire(&"e".to_string()), Err(AcquireError::MaxReferencesExceeded));
    assert_eq!(acquired.num_elements_acquired, 3);
    assert_eq!(AcquiredNodes::new(&document).max_references, 500_000);
}

#[test]
fn attributes_are_read_in_their_order() {
    let mut p = Pattern::new();
    let read = p.set_attributes(&vec![
        PatternAttribute::X(px(1.0, LengthDir::Horizontal)),
        PatternAttribute::Other,
        PatternAttribute::PatternUnits(PatternUnits(CoordUnits::UserSpaceOnUse)),
        PatternAttribute::PatternContentUnits(PatternContentUnits(CoordUnits::ObjectBoundingBox)),
        PatternAttribute::ViewBox(ViewBox(rect(0.0, 0.0, 1.0, 1.0))),
        PatternAttribute::PreserveAspectRatio(AspectRatio { defer: false, align: None }),
        PatternAttribute::PatternTransform(Transform::identity()),
        PatternAttribute::Y(px(2.0, LengthDir::Vertical)),
        PatternAttribute::Width(px(3.0, LengthDir::Horizontal)),
        PatternAttribute::Height(px(4.0, LengthDir::Vertical)),
        PatternAttribute::X(px(5.0, LengthDir::Horizontal)),
    ]);
    assert_eq!(read, Ok(()));
    assert_eq!(
        p.common,
        Common {
            units: Some(PatternUnits(CoordUnits::UserSpaceOnUse)),
            content_units: Some(PatternContentUnits(CoordUnits::ObjectBoundingBox)),
            vbox: Some(Some(ViewBox(rect(0.0, 0.0, 1.0, 1.0)))),
            preserve_aspect_ratio: Some(AspectRatio { defer: false, align: None }),
            transform: Some(Transform::identity()),
            x: Some(px(5.0, LengthDir::Horizontal)),
            y: Some(px(2.0, LengthDir::Vertical)),
            width: Some(px(3.0, LengthDir::Horizontal)),
            height: Some(px(4.0, LengthDir::Vertical)),
        }
    );
    assert!(p.common.is_resolved());
    assert_eq!(p.fallback, None);
}

#[test]
fn reading_attributes_stops_at_an_invalid_one() {
    let mut p = Pattern::new();
    let read = p.set_attributes(&vec![
        PatternAttribute::X(px(1.0, LengthDir::Horizontal)),
        PatternAttribute::Invalid,
        PatternAttribute::Y(px(2.0, LengthDir::Vertical)),
        PatternAttribute::Invalid,
    ]);
    assert_eq!(read, Err(ElementError { attribute: 1 }));
    assert_eq!(p.common, Common { x: Some(px(1.0, LengthDir::Horizontal)), ..Common::default() });
}

#[test]
fn href_takes_the_place_of_xlink_href_and_not_the_other_way() {
    let mut p = Pattern::new();
    p.set_attributes(&vec![
        PatternAttribute::XlinkHref("a".to_string()),
        PatternAttribute::XlinkHref("b".to_string()),
    ])
    .unwrap();
    assert_eq!(p.fallback, Some("a".to_string()));
    p.set_attributes(&vec![
        PatternAttribute::Href("c".to_string()),
        PatternAttribute::XlinkHref("d".to_string()),
    ])
    .unwrap();
    assert_eq!(p.fallback, Some("c".to_string()));
    p.set_attributes(&vec![PatternAttribute::Href("e".to_string())]).unwrap();
    assert_eq!(p.fallback, Some("e".to_string()));
}
