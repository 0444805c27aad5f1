use rsvg::clip_path::{ClipPathAttribute, NodeClipPath, NodeError};
use rsvg::coord_units::{ClipPathUnits, CoordUnits, Frame};
use rsvg::geometry::{BoundingBox, Rect};
use rsvg::number::Number;

fn n(x: f64) -> Number {
    Number::from_bits(x.to_bits())
}

#[test]
fn a_new_clip_path_is_in_user_space() {
    let clip = NodeClipPath::new();
    assert_eq!(clip.get_units(), ClipPathUnits(CoordUnits::UserSpaceOnUse));
    assert_eq!(ClipPathUnits::default(), ClipPathUnits(CoordUnits::UserSpaceOnUse));
}

#[test]
fn attributes_are_read_in_order() {
    let mut clip = NodeClipPath::new();
    let bag = vec![
        ClipPathAttribute::Other,
        ClipPathAttribute::ClipPathUnits(Some(ClipPathUnits(CoordUnits::ObjectBoundingBox))),
        ClipPathAttribute::Other,
    ];
    assert_eq!(clip.set_atts(&bag), Ok(()));
    assert_eq!(clip.get_units(), ClipPathUnits(CoordUnits::ObjectBoundingBox));
}

#[test]
fn reading_stops_at_a_bad_value() {
    let mut clip = NodeClipPath::new();
    let bag = vec![
        ClipPathAttribute::ClipPathUnits(Some(ClipPathUnits(CoordUnits::ObjectBoundingBox))),
        ClipPathAttribute::ClipPathUnits(None),
        ClipPathAttribute::ClipPathUnits(Some(ClipPathUnits(CoordUnits::UserSpaceOnUse))),
        ClipPathAttribute::ClipPathUnits(None),
    ];
    assert_eq!(clip.set_atts(&bag), Err(NodeError { attribute: 1 }));
    assert_eq!(clip.get_units(), ClipPathUnits(CoordUnits::ObjectBoundingBox));
}

#[test]
fn clipping_against_a_missing_bounding_box_clips_nothing() {
    let mut clip = NodeClipPath::new();
    let bb = Rect { x0: n(1.0), y0: n(2.0), x1: n(3.0), y1: n(4.0) };
    assert_eq!(clip.to_cairo_context(&BoundingBox { rect: None }), Some(Frame::UserSpaceOnUse));
    assert_eq!(clip.to_cairo_context(&BoundingBox { rect: Some(bb) }), Some(Frame::UserSpaceOnUse));
    clip.units = ClipPathUnits(CoordUnits::ObjectBoundingBox);
    assert_eq!(clip.to_cairo_context(&BoundingBox { rect: None }), None);
    assert_eq!(
        clip.to_cairo_context(&BoundingBox { rect: Some(bb) }),
        Some(Frame::ObjectBoundingBox(bb))
    );
}
