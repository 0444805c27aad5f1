//! The `feTile` filter primitive.

use crate::filters::FilterEffect;
use crate::filters::FilterInput;
use crate::filters::IRect;
use crate::filters::PrimitiveWithInput;
use crate::util::clone_fallback_name;
use vstd::prelude::*;

verus! {

/// The `feTile` filter primitive.
#[derive(Debug)]
pub struct FeTile {
    pub base: PrimitiveWithInput,
}

/// What fills the region of a tile primitive.
#[derive(Debug, Clone, Copy, PartialEq, Eq, Structural)]
pub enum TileSurface {
    /// The input as it is.
    Input,
    /// The part `tile` of the input, repeated in both directions from
    /// `(x0, y0)`.
    Tiled { tile: IRect, x0: i32, y0: i32 },
}

/// What a tile primitive asks for: `bounds` filled with `surface`, under the
/// name `name`.
#[derive(Debug)]
pub struct Tile {
    pub name: Option<String>,
    pub bounds: IRect,
    pub surface: TileSurface,
}

impl FilterInput {
    /// A standard input is passed on. The result of an earlier primitive is
    /// cut to its own bounds and repeated from their corner.
    pub open spec fn spec_tiled(self) -> TileSurface {
        match self {
            FilterInput::StandardInput => TileSurface::Input,
            FilterInput::PrimitiveOutput { bounds } => TileSurface::Tiled {
                tile: bounds,
                x0: bounds.x0,
                y0: bounds.y0,
            },
        }
    }
}

impl FeTile {
    /// The tiling of `input` over the region `bounds`, which does not depend
    /// on where the input lies.
    pub fn render(&self, input: FilterInput, bounds: IRect) -> (tile: Tile)
        ensures
            tile.name == self.base.base.result,
            tile.bounds == bounds,
            tile.surface == input.spec_tiled(),
    {
        let surface = match input {
            FilterInput::StandardInput => TileSurface::Input,
            FilterInput::PrimitiveOutput { bounds: input_bounds } => TileSurface::Tiled {
                tile: input_bounds,
                x0: input_bounds.x0,
                y0: input_bounds.y0,
            },
        };
        Tile { name: clone_fallback_name(&self.base.base.result), bounds, surface }
    }
}

impl Default for FeTile {
    /// A tile primitive that states nothing.
    fn default() -> (tile: FeTile)
        ensures
            tile.base.in1 is None,
            tile.base.base.result is None,
    {
        FeTile { base: PrimitiveWithInput::new() }
    }
}

impl FilterEffect for FeTile {
    fn is_affected_by_color_interpolation_filters(&self) -> (affected: bool)
        ensures
            !affected,
    {
        false
    }
}

} // verus!
