//! Rectangles, transforms, view boxes and the rule for fitting one rectangle
//! into another, as plain values.

use crate::number::Number;
use crate::number::ONE_BITS;
use vstd::prelude::*;

verus! {

/// A rectangle by two corners.
#[derive(Debug, Clone, Copy, PartialEq, Eq, Structural)]
pub struct Rect {
    pub x0: Number,
    pub y0: Number,
    pub x1: Number,
    pub y1: Number,
}

/// The rectangle that encloses what an object paints, if it paints anything.
#[derive(Debug, Clone, Copy, PartialEq, Eq, Structural)]
pub struct BoundingBox {
    pub rect: Option<Rect>,
}

/// The rectangle of user space that a pattern's content is drawn in.
#[derive(Debug, Clone, Copy, PartialEq, Eq, Structural)]
pub struct ViewBox(pub Rect);

/// An affine transform: a point `(x, y)` goes to
/// `(xx * x + xy * y + x0, yx * x + yy * y + y0)`.
#[derive(Debug, Clone, Copy, PartialEq, Eq, Structural)]
pub struct Transform {
    pub xx: Number,
    pub yx: Number,
    pub xy: Number,
    pub yy: Number,
    pub x0: Number,
    pub y0: Number,
}

impl Transform {
    /// The transform that moves nothing.
    pub open spec fn spec_identity() -> Transform {
        Transform {
            xx: Number { bits: ONE_BITS },
            yx: Number { bits: 0 },
            xy: Number { bits: 0 },
            yy: Number { bits: ONE_BITS },
            x0: Number { bits: 0 },
            y0: Number { bits: 0 },
        }
    }

    pub fn identity() -> (t: Transform)
        ensures
            t == Transform::spec_identity(),
    {
        Transform {
            xx: Number::one(),
            yx: Number::zero(),
            xy: Number::zero(),
            yy: Number::one(),
            x0: Number::zero(),
            y0: Number::zero(),
        }
    }
}

impl Default for Transform {
    fn default() -> (t: Transform)
        ensures
            t == Transform::spec_identity(),
    {
        Transform::identity()
    }
}

/// Where along one axis a fitted rectangle is placed.
#[derive(Debug, Clone, Copy, PartialEq, Eq, Structural)]
pub enum Align1D {
    Min,
    Mid,
    Max,
}

/// Whether a fitted rectangle stays inside its frame or covers it.
#[derive(Debug, Clone, Copy, PartialEq, Eq, Structural)]
pub enum FitMode {
    Meet,
    Slice,
}

/// Uniform scaling with an alignment on each axis.
#[derive(Debug, Clone, Copy, PartialEq, Eq, Structural)]
pub struct Align {
    pub x: Align1D,
    pub y: Align1D,
    pub fit: FitMode,
}

/// How a view box is fitted into a rectangle: stretched on each axis where
/// `align` is absent, scaled uniformly and aligned where it is present.
#[derive(Debug, Clone, Copy, PartialEq, Eq, Structural)]
pub struct AspectRatio {
    pub defer: bool,
    pub align: Option<Align>,
}

impl AspectRatio {
    /// Centred on both axes and kept inside the frame.
    pub open spec fn spec_default() -> AspectRatio {
        AspectRatio {
            defer: false,
            align: Some(Align { x: Align1D::Mid, y: Align1D::Mid, fit: FitMode::Meet }),
        }
    }
}

impl Default for AspectRatio {
    fn default() -> (a: AspectRatio)
        ensures
            a == AspectRatio::spec_default(),
    {
        AspectRatio {
            defer: false,
            align: Some(Align { x: Align1D::Mid, y: Align1D::Mid, fit: FitMode::Meet }),
        }
    }
}

} // verus!
