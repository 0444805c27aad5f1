//! Real numbers as the renderer hands them over.
//!
//! Coordinates, lengths and offsets are binary64 values. This library does no
//! arithmetic on them: it stores each as the 64 bits of its encoding, hands it
//! on unchanged, and only ever asks which of two is the larger.

use vstd::prelude::*;

verus! {

/// A binary64 value, held as its 64 bits: the sign in the highest bit, then
/// eleven bits of exponent and fifty-two of fraction.
#[derive(Debug, Clone, Copy, PartialEq, Eq, Structural)]
pub struct Number {
    pub bits: u64,
}

/// The bits of positive infinity. A larger magnitude is not a number.
pub const INFINITY_BITS: u64 = 0x7ff0_0000_0000_0000;

/// The bits of 0.5.
pub const HALF_BITS: u64 = 0x3fe0_0000_0000_0000;

/// The bits of 1.
pub const ONE_BITS: u64 = 0x3ff0_0000_0000_0000;

/// The value of the sign bit.
pub const SIGN_BIT: u64 = 0x8000_0000_0000_0000;

impl Number {
    /// The encoding without its sign.
    pub open spec fn magnitude(self) -> int {
        self.bits as int % 0x8000_0000_0000_0000
    }

    /// Whether the sign bit is set.
    pub open spec fn is_negative(self) -> bool {
        self.bits >= 0x8000_0000_0000_0000
    }

    /// Whether the bits encode no number at all.
    pub open spec fn is_nan(self) -> bool {
        self.magnitude() > 0x7ff0_0000_0000_0000
    }

    /// Whether `self` is greater than `other` as binary64 values compare:
    /// nothing is greater or smaller than what is not a number, the two zeros
    /// are equal, and otherwise the sign decides first and the magnitude
    /// second.
    pub open spec fn spec_gt(self, other: Number) -> bool {
        if self.is_nan() || other.is_nan() {
            false
        } else if self.magnitude() == 0 && other.magnitude() == 0 {
            false
        } else if self.is_negative() {
            other.is_negative() && self.magnitude() < other.magnitude()
        } else {
            other.is_negative() || self.magnitude() > other.magnitude()
        }
    }

    pub fn from_bits(bits: u64) -> (n: Number)
        ensures
            n.bits == bits,
    {
        Number { bits }
    }

    pub fn to_bits(self) -> (bits: u64)
        ensures
            bits == self.bits,
    {
        self.bits
    }

    /// Zero, with a clear sign.
    pub fn zero() -> (n: Number)
        ensures
            n.bits == 0,
    {
        Number { bits: 0 }
    }

    /// One half.
    pub fn half() -> (n: Number)
        ensures
            n.bits == HALF_BITS,
    {
        Number { bits: HALF_BITS }
    }

    /// One.
    pub fn one() -> (n: Number)
        ensures
            n.bits == ONE_BITS,
    {
        Number { bits: ONE_BITS }
    }

    /// Whether `self` is greater than `other`.
    pub fn gt(self, other: Number) -> (greater: bool)
        ensures
            greater == self.spec_gt(other),
    {
        let mine: u64 = self.bits % SIGN_BIT;
        let theirs: u64 = other.bits % SIGN_BIT;
        if mine > INFINITY_BITS || theirs > INFINITY_BITS {
            false
        } else if mine == 0 && theirs == 0 {
            false
        } else if self.bits >= SIGN_BIT {
            other.bits >= SIGN_BIT && mine < theirs
        } else {
            other.bits >= SIGN_BIT || mine > theirs
        }
    }
}

impl Default for Number {
    fn default() -> (n: Number)
        ensures
            n.bits == 0,
    {
        Number { bits: 0 }
    }
}

/// No number is greater than itself, and of two numbers at most one is
/// greater than the other.
pub proof fn gt_is_asymmetric(a: Number, b: Number)
    ensures
        !a.spec_gt(a),
        !(a.spec_gt(b) && b.spec_gt(a)),
{
}

/// Greater-than passes along a chain.
pub proof fn gt_is_transitive(a: Number, b: Number, c: Number)
    requires
        a.spec_gt(b),
        b.spec_gt(c),
    ensures
        a.spec_gt(c),
{
}

} // verus!
