//! The `feOffset` filter primitive.

use crate::filters::FilterEffect;
use crate::filters::IRect;
use crate::filters::PrimitiveWithInput;
use crate::number::Number;
use crate::pattern::ElementError;
use crate::util::clone_fallback_name;
use vstd::prelude::*;

verus! {

/// An attribute of an `feOffset` element, as far as the element itself reads
/// it.
#[derive(Debug, Clone, Copy, PartialEq, Eq, Structural)]
pub enum OffsetAttribute {
    /// `dx`, with its value, or with nothing where the value is no number.
    Dx(Option<Number>),
    /// `dy`, with its value, or with nothing where the value is no number.
    Dy(Option<Number>),
    /// Any other attribute.
    Other,
}

/// The `feOffset` filter primitive.
#[derive(Debug)]
pub struct FeOffset {
    pub base: PrimitiveWithInput,
    pub dx: Number,
    pub dy: Number,
}

/// What an offset asks for: the input moved by `(dx, dy)`, which are still in
/// the units of the primitive, within `bounds`, under the name `name`.
#[derive(Debug)]
pub struct Offset {
    pub name: Option<String>,
    pub bounds: IRect,
    pub dx: Number,
    pub dy: Number,
}

impl OffsetAttribute {
    pub open spec fn is_bad(self) -> bool {
        self == OffsetAttribute::Dx(None) || self == OffsetAttribute::Dy(None)
    }
}

/// The offset after the attributes have been read one after the other, up to
/// the first bad one.
pub open spec fn after_attributes(dx: Number, dy: Number, attrs: Seq<OffsetAttribute>) -> (Number, Number)
    decreases attrs.len(),
{
    if attrs.len() == 0 {
        (dx, dy)
    } else {
        match attrs[0] {
            OffsetAttribute::Dx(Some(v)) => after_attributes(v, dy, attrs.drop_first()),
            OffsetAttribute::Dy(Some(v)) => after_attributes(dx, v, attrs.drop_first()),
            OffsetAttribute::Other => after_attributes(dx, dy, attrs.drop_first()),
            _ => (dx, dy),
        }
    }
}

impl FeOffset {
    /// Reads `dx` and `dy` from the element's attributes in their order.
    /// Reading stops at the first bad value, which is the error; what was
    /// read before it stays.
    pub fn set_attributes(&mut self, attrs: &Vec<OffsetAttribute>) -> (result: Result<
        (),
        ElementError,
    >)
        ensures
            (final(self).dx, final(self).dy) == after_attributes(old(self).dx, old(self).dy, attrs@),
            final(self).base == old(self).base,
            match result {
                Ok(_) => forall|i: int| 0 <= i < attrs.len() ==> !attrs[i].is_bad(),
                Err(e) => {
                    &&& e.attribute < attrs.len()
                    &&& attrs[e.attribute as int].is_bad()
                    &&& forall|i: int| 0 <= i < e.attribute ==> !attrs[i].is_bad()
                },
            },
    {
        let mut i: usize = 0;
        assert(attrs@.skip(0) == attrs@);
        while i < attrs.len()
            invariant
                i <= attrs.len(),
                self.base == old(self).base,
                after_attributes(self.dx, self.dy, attrs@.skip(i as int)) == after_attributes(
                    old(self).dx,
                    old(self).dy,
                    attrs@,
                ),
                forall|j: int| 0 <= j < i ==> !attrs[j].is_bad(),
            decreases attrs.len() - i,
        {
            proof {
                let rest = attrs@.skip(i as int);
                assert(rest[0] == attrs[i as int]);
                assert(rest.drop_first() == attrs@.skip(i + 1));
            }
            match attrs[i] {
                OffsetAttribute::Dx(Some(v)) => {
                    self.dx = v;
                },
                OffsetAttribute::Dy(Some(v)) => {
                    self.dy = v;
                },
                OffsetAttribute::Other => {},
                _ => {
                    return Err(ElementError { attribute: i });
                },
            }
            i = i + 1;
        }
        Ok(())
    }

    /// The offset for the region `bounds`.
    pub fn render(&self, bounds: IRect) -> (offset: Offset)
        ensures
            offset.name == self.base.base.result,
            offset.bounds == bounds,
            offset.dx == self.dx,
            offset.dy == self.dy,
    {
        Offset {
            name: clone_fallback_name(&self.base.base.result),
            bounds,
            dx: self.dx,
            dy: self.dy,
        }
    }
}

impl Default for FeOffset {
    /// An offset that moves nothing.
    fn default() -> (offset: FeOffset)
        ensures
            offset.dx.bits == 0,
            offset.dy.bits == 0,
            offset.base.in1 is None,
            offset.base.base.result is None,
    {
        FeOffset { base: PrimitiveWithInput::new(), dx: Number::zero(), dy: Number::zero() }
    }
}

impl FilterEffect for FeOffset {
    fn is_affected_by_color_interpolation_filters(&self) -> (affected: bool)
        ensures
            !affected,
    {
        false
    }
}

} // verus!
