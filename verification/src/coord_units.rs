//! The two coordinate systems in which a paint server's lengths can be given.

use crate::geometry::BoundingBox;
use crate::geometry::Rect;
use vstd::prelude::*;

verus! {

/// Whether lengths are taken in the user space in force where the paint server
/// is used, or as fractions of the bounding box of the object being painted.
#[derive(Debug, Clone, Copy, PartialEq, Eq, Structural)]
pub enum CoordUnits {
    UserSpaceOnUse,
    ObjectBoundingBox,
}

/// The units of a pattern's tile rectangle. Unless stated: the bounding box.
#[derive(Debug, Clone, Copy, PartialEq, Eq, Structural)]
pub struct PatternUnits(pub CoordUnits);

/// The units of a pattern's content. Unless stated: user space.
#[derive(Debug, Clone, Copy, PartialEq, Eq, Structural)]
pub struct PatternContentUnits(pub CoordUnits);

/// The units of a clipping path. Unless stated: user space.
#[derive(Debug, Clone, Copy, PartialEq, Eq, Structural)]
pub struct ClipPathUnits(pub CoordUnits);

/// The units of a gradient. Unless stated: the bounding box.
#[derive(Debug, Clone, Copy, PartialEq, Eq, Structural)]
pub enum PaintServerUnits {
    UserSpaceOnUse,
    ObjectBoundingBox,
}

/// A coordinate system that is ready for use: user space, or the bounding box
/// of the painted object together with that box.
#[derive(Debug, Clone, Copy, PartialEq, Eq, Structural)]
pub enum Frame {
    UserSpaceOnUse,
    ObjectBoundingBox(Rect),
}

impl CoordUnits {
    /// The frame for these units and an object with the bounding box `bbox`.
    /// There is none where the units refer to a bounding box and the object
    /// has none.
    pub open spec fn spec_frame(self, bbox: BoundingBox) -> Option<Frame> {
        match self {
            CoordUnits::UserSpaceOnUse => Some(Frame::UserSpaceOnUse),
            CoordUnits::ObjectBoundingBox => match bbox.rect {
                Some(rect) => Some(Frame::ObjectBoundingBox(rect)),
                None => None,
            },
        }
    }

    pub fn frame(self, bbox: &BoundingBox) -> (frame: Option<Frame>)
        ensures
            frame == self.spec_frame(*bbox),
    {
        match self {
            CoordUnits::UserSpaceOnUse => Some(Frame::UserSpaceOnUse),
            CoordUnits::ObjectBoundingBox => match bbox.rect {
                Some(rect) => Some(Frame::ObjectBoundingBox(rect)),
                None => None,
            },
        }
    }
}

impl Default for PatternUnits {
    fn default() -> (u: PatternUnits)
        ensures
            u == PatternUnits(CoordUnits::ObjectBoundingBox),
    {
        PatternUnits(CoordUnits::ObjectBoundingBox)
    }
}

impl Default for PatternContentUnits {
    fn default() -> (u: PatternContentUnits)
        ensures
            u == PatternContentUnits(CoordUnits::UserSpaceOnUse),
    {
        PatternContentUnits(CoordUnits::UserSpaceOnUse)
    }
}

impl Default for ClipPathUnits {
    fn default() -> (u: ClipPathUnits)
        ensures
            u == ClipPathUnits(CoordUnits::UserSpaceOnUse),
    {
        ClipPathUnits(CoordUnits::UserSpaceOnUse)
    }
}

impl Default for PaintServerUnits {
    fn default() -> (u: PaintServerUnits)
        ensures
            u == PaintServerUnits::ObjectBoundingBox,
    {
        PaintServerUnits::ObjectBoundingBox
    }
}

} // verus!
