//! The `feFlood` filter primitive.

use crate::filters::FilterEffect;
use crate::filters::IRect;
use crate::filters::Primitive;
use crate::number::Number;
use crate::util::clone_fallback_name;
use vstd::prelude::*;

verus! {

/// A colour of red, green, blue and alpha.
#[derive(Debug, Clone, Copy, PartialEq, Eq, Structural)]
pub struct RGBA {
    pub red: u8,
    pub green: u8,
    pub blue: u8,
    pub alpha: u8,
}

/// A colour as a property states it.
#[derive(Debug, Clone, Copy, PartialEq, Eq, Structural)]
pub enum Color {
    /// The value of the `color` property.
    CurrentColor,
    RGBA(RGBA),
}

/// The `feFlood` filter primitive.
#[derive(Debug)]
pub struct FeFlood {
    pub base: Primitive,
}

/// What a flood asks for: `bounds` filled with `color` at `opacity`, under
/// the name `name`.
#[derive(Debug)]
pub struct Flood {
    pub name: Option<String>,
    pub bounds: IRect,
    pub color: RGBA,
    pub opacity: Number,
}

impl Color {
    /// The colour itself, or `current` where it refers to the current colour.
    pub open spec fn spec_resolve(self, current: RGBA) -> RGBA {
        match self {
            Color::CurrentColor => current,
            Color::RGBA(rgba) => rgba,
        }
    }

    pub fn resolve(self, current: RGBA) -> (rgba: RGBA)
        ensures
            rgba == self.spec_resolve(current),
    {
        match self {
            Color::CurrentColor => current,
            Color::RGBA(rgba) => rgba,
        }
    }
}

impl FeFlood {
    /// The flood for the region `bounds`: the flood colour, which is the
    /// current colour `color` where it says so, at the flood opacity.
    pub fn render(&self, bounds: IRect, flood_color: Color, color: RGBA, flood_opacity: Number) -> (flood:
        Flood)
        ensures
            flood.name == self.base.result,
            flood.bounds == bounds,
            flood.color == flood_color.spec_resolve(color),
            flood.opacity == flood_opacity,
    {
        Flood {
            name: clone_fallback_name(&self.base.result),
            bounds,
            color: flood_color.resolve(color),
            opacity: flood_opacity,
        }
    }
}

impl Default for FeFlood {
    /// A flood that states nothing.
    fn default() -> (flood: FeFlood)
        ensures
            flood.base.result is None,
            flood.base.x is None,
            flood.base.y is None,
            flood.base.width is None,
            flood.base.height is None,
    {
        FeFlood { base: Primitive::new() }
    }
}

impl FilterEffect for FeFlood {
    fn is_affected_by_color_interpolation_filters(&self) -> (affected: bool)
        ensures
            !affected,
    {
        false
    }
}

} // verus!
