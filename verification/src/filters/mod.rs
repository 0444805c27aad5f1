//! Filter primitives: what each of them asks of the surface it works on.

pub mod flood;
pub mod offset;
pub mod tile;

use crate::length::Length;
use vstd::prelude::*;

verus! {

/// A rectangle of whole pixels.
#[derive(Debug, Clone, Copy, PartialEq, Eq, Structural)]
pub struct IRect {
    pub x0: i32,
    pub y0: i32,
    pub x1: i32,
    pub y1: i32,
}

/// What every filter primitive has: the region it works in, as far as
/// stated, and the name under which later primitives find its result.
#[derive(Debug)]
pub struct Primitive {
    pub x: Option<Length>,
    pub y: Option<Length>,
    pub width: Option<Length>,
    pub height: Option<Length>,
    pub result: Option<String>,
}

/// Where a primitive takes its input from.
#[derive(Debug)]
pub enum Input {
    SourceGraphic,
    SourceAlpha,
    BackgroundImage,
    BackgroundAlpha,
    FillPaint,
    StrokePaint,
    /// The result of an earlier primitive, by its name.
    FilterOutput(String),
}

/// A filter primitive that has an input.
#[derive(Debug)]
pub struct PrimitiveWithInput {
    pub base: Primitive,
    pub in1: Option<Input>,
}

/// The input of a primitive once it has been found.
#[derive(Debug, Clone, Copy, PartialEq, Eq, Structural)]
pub enum FilterInput {
    /// One of the standard inputs, which cover the whole filter region.
    StandardInput,
    /// The result of an earlier primitive, which covers `bounds`.
    PrimitiveOutput { bounds: IRect },
}

/// What all filter primitives answer.
pub trait FilterEffect {
    /// Whether the primitive computes with colours in the colour space that
    /// `color-interpolation-filters` names.
    fn is_affected_by_color_interpolation_filters(&self) -> bool;
}

impl Primitive {
    /// A primitive that states nothing.
    pub fn new() -> (primitive: Primitive)
        ensures
            primitive.x is None,
            primitive.y is None,
            primitive.width is None,
            primitive.height is None,
            primitive.result is None,
    {
        Primitive { x: None, y: None, width: None, height: None, result: None }
    }
}

impl PrimitiveWithInput {
    /// A primitive that states nothing and names no input.
    pub fn new() -> (primitive: PrimitiveWithInput)
        ensures
            primitive.base.x is None,
            primitive.base.y is None,
            primitive.base.width is None,
            primitive.base.height is None,
            primitive.base.result is None,
            primitive.in1 is None,
    {
        PrimitiveWithInput { base: Primitive::new(), in1: None }
    }
}

} // verus!
