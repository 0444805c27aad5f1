//! The `clipPath` element.

use crate::coord_units::ClipPathUnits;
use crate::coord_units::CoordUnits;
use crate::coord_units::Frame;
use crate::geometry::BoundingBox;
use vstd::prelude::*;

verus! {

/// An attribute of a `clipPath` element, as far as the element reads it.
#[derive(Debug, Clone, Copy, PartialEq, Eq, Structural)]
pub enum ClipPathAttribute {
    /// `clipPathUnits`, with its value, or with nothing where the value is
    /// none that the attribute can have.
    ClipPathUnits(Option<ClipPathUnits>),
    /// Any other attribute.
    Other,
}

/// An attribute had a value that it cannot have.
#[derive(Debug, Clone, Copy, PartialEq, Eq, Structural)]
pub struct NodeError {
    /// The position of the attribute among those of the element.
    pub attribute: usize,
}

#[derive(Debug)]
pub struct NodeClipPath {
    pub units: ClipPathUnits,
}

/// The units after the attributes have been read one after the other: those
/// of the last `clipPathUnits` before the first bad one, else the ones before.
pub open spec fn units_after(units: ClipPathUnits, pbag: Seq<ClipPathAttribute>) -> ClipPathUnits
    decreases pbag.len(),
{
    if pbag.len() == 0 {
        units
    } else {
        match pbag[0] {
            ClipPathAttribute::ClipPathUnits(Some(stated)) => units_after(stated, pbag.drop_first()),
            ClipPathAttribute::ClipPathUnits(None) => units,
            ClipPathAttribute::Other => units_after(units, pbag.drop_first()),
        }
    }
}

/// Whether `i` is the position of the first attribute with a bad value.
pub open spec fn is_first_bad(pbag: Seq<ClipPathAttribute>, i: int) -> bool {
    &&& 0 <= i < pbag.len()
    &&& pbag[i] == ClipPathAttribute::ClipPathUnits(None)
    &&& forall|j: int| 0 <= j < i ==> pbag[j] != ClipPathAttribute::ClipPathUnits(None)
}

impl NodeClipPath {
    /// A clipping path in user space.
    pub fn new() -> (clip_path: NodeClipPath)
        ensures
            clip_path.units == ClipPathUnits(CoordUnits::UserSpaceOnUse),
    {
        NodeClipPath { units: ClipPathUnits::default() }
    }

    pub fn get_units(&self) -> (units: ClipPathUnits)
        ensures
            units == self.units,
    {
        self.units
    }

    /// What clipping an object with the bounding box `bbox` to this path
    /// takes: the frame in which the children of the path are drawn as the
    /// clip. It is `None`, which stands for nothing to clip, exactly where the
    /// path is given in fractions of the bounding box and the object has
    /// none.
    pub fn to_cairo_context(&self, bbox: &BoundingBox) -> (frame: Option<Frame>)
        ensures
            frame == self.units.0.spec_frame(*bbox),
            frame is None <==> (self.units == ClipPathUnits(CoordUnits::ObjectBoundingBox)
                && bbox.rect is None),
    {
        self.units.0.frame(bbox)
    }

    /// Reads the element's attributes in their order. Reading stops at the
    /// first attribute with a bad value, which is the error; what was read
    /// before it stays.
    pub fn set_atts(&mut self, pbag: &Vec<ClipPathAttribute>) -> (result: Result<(), NodeError>)
        ensures
            final(self).units == units_after(old(self).units, pbag@),
            match result {
                Ok(_) => forall|i: int|
                    0 <= i < pbag.len() ==> pbag[i] != ClipPathAttribute::ClipPathUnits(None),
                Err(e) => is_first_bad(pbag@, e.attribute as int),
            },
    {
        let mut i: usize = 0;
        assert(pbag@.skip(0) == pbag@);
        while i < pbag.len()
            invariant
                i <= pbag.len(),
                units_after(self.units, pbag@.skip(i as int)) == units_after(old(self).units, pbag@),
                forall|j: int| 0 <= j < i ==> pbag[j] != ClipPathAttribute::ClipPathUnits(None),
            decreases pbag.len() - i,
        {
            proof {
                let rest = pbag@.skip(i as int);
                assert(rest[0] == pbag[i as int]);
                assert(rest.drop_first() == pbag@.skip(i + 1));
            }
            match pbag[i] {
                ClipPathAttribute::ClipPathUnits(Some(units)) => {
                    self.units = units;
                },
                ClipPathAttribute::ClipPathUnits(None) => {
                    return Err(NodeError { attribute: i });
                },
                ClipPathAttribute::Other => {},
            }
            i = i + 1;
        }
        Ok(())
    }
}

} // verus!
