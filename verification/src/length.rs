//! Lengths as they stand in a document: a number, a unit and the direction
//! along which a percentage is measured.

use crate::number::Number;
use crate::number::HALF_BITS;
use crate::number::ONE_BITS;
use vstd::prelude::*;

verus! {

/// The unit of a length.
#[derive(Debug, Clone, Copy, PartialEq, Eq, Structural)]
pub enum LengthUnit {
    /// A fraction of the viewport or of the bounding box: 1 stands for 100%.
    Percent,
    Px,
    Em,
    Ex,
    In,
    Cm,
    Mm,
    Pt,
    Pc,
}

/// The direction along which a length is measured, which decides what a
/// percentage refers to.
#[derive(Debug, Clone, Copy, PartialEq, Eq, Structural)]
pub enum LengthDir {
    Horizontal,
    Vertical,
    Both,
}

/// A length.
#[derive(Debug, Clone, Copy, PartialEq, Eq, Structural)]
pub struct Length {
    pub length: Number,
    pub unit: LengthUnit,
    pub dir: LengthDir,
}

impl Length {
    pub fn new(length: Number, unit: LengthUnit, dir: LengthDir) -> (l: Length)
        ensures
            l == (Length { length, unit, dir }),
    {
        Length { length, unit, dir }
    }

    /// Zero pixels.
    pub open spec fn spec_zero(dir: LengthDir) -> Length {
        Length { length: Number { bits: 0 }, unit: LengthUnit::Px, dir }
    }

    /// 0%.
    pub open spec fn spec_no_part(dir: LengthDir) -> Length {
        Length { length: Number { bits: 0 }, unit: LengthUnit::Percent, dir }
    }

    /// 50%.
    pub open spec fn spec_half(dir: LengthDir) -> Length {
        Length { length: Number { bits: HALF_BITS }, unit: LengthUnit::Percent, dir }
    }

    /// 100%.
    pub open spec fn spec_whole(dir: LengthDir) -> Length {
        Length { length: Number { bits: ONE_BITS }, unit: LengthUnit::Percent, dir }
    }

    pub fn zero(dir: LengthDir) -> (l: Length)
        ensures
            l == Length::spec_zero(dir),
    {
        Length { length: Number::zero(), unit: LengthUnit::Px, dir }
    }

    pub fn no_part(dir: LengthDir) -> (l: Length)
        ensures
            l == Length::spec_no_part(dir),
    {
        Length { length: Number::zero(), unit: LengthUnit::Percent, dir }
    }

    pub fn half(dir: LengthDir) -> (l: Length)
        ensures
            l == Length::spec_half(dir),
    {
        Length { length: Number::half(), unit: LengthUnit::Percent, dir }
    }

    pub fn whole(dir: LengthDir) -> (l: Length)
        ensures
            l == Length::spec_whole(dir),
    {
        Length { length: Number::one(), unit: LengthUnit::Percent, dir }
    }
}

} // verus!
