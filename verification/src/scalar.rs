//! Single precision numbers as the library sees them: by their bit patterns,
//! which tell their order.

use vstd::prelude::*;

verus! {

/// The bit that tells a negative number from a positive one.
pub const SIGN_BIT: u32 = 0x8000_0000;

/// The bit pattern of positive infinity. A pattern that is larger, the sign
/// left aside, is that of no number.
pub const INFINITE_BITS: u32 = 0x7F80_0000;

/// The bit pattern of a half.
pub const HALF_BITS: u32 = 0x3F00_0000;

/// The bit pattern of one.
pub const ONE_BITS: u32 = 0x3F80_0000;

/// A single precision number, held by its bit pattern. The library compares
/// such numbers and never computes with them: it reads the order of two
/// numbers off their patterns.
#[derive(Clone, Copy, Debug)]
pub struct Scalar {
    pub bits: u32,
}

impl Scalar {
    /// The pattern with the sign taken off.
    pub open spec fn magnitude(self) -> int {
        if self.bits >= SIGN_BIT {
            self.bits - SIGN_BIT
        } else {
            self.bits as int
        }
    }

    /// Whether the pattern is that of no number.
    pub open spec fn nan(self) -> bool {
        self.magnitude() > INFINITE_BITS
    }

    /// Whether the number is zero, of either sign.
    pub open spec fn zero(self) -> bool {
        self.magnitude() == 0
    }

    /// An integer that stands where the number stands among the numbers:
    /// the larger the number, the larger the integer. The patterns of the
    /// positive numbers grow with the numbers, those of the negative ones
    /// with their sizes, and the two zeros stand in one place.
    pub open spec fn rank(self) -> int {
        if self.bits >= SIGN_BIT {
            -self.magnitude()
        } else {
            self.magnitude()
        }
    }

    /// Whether this number is less than the other. What is no number is
    /// neither less nor more than anything.
    pub open spec fn below(self, other: Scalar) -> bool {
        !self.nan() && !other.nan() && self.rank() < other.rank()
    }

    /// Whether this number is a number, and at least `low` and at most
    /// `high`.
    pub open spec fn within(self, low: Scalar, high: Scalar) -> bool {
        !self.nan() && low.rank() <= self.rank() <= high.rank()
    }

    /// Whether this number is a number, more than `low` and less than
    /// `high`.
    pub open spec fn between(self, low: Scalar, high: Scalar) -> bool {
        !self.nan() && low.rank() < self.rank() < high.rank()
    }

    /// The number with the given bit pattern.
    pub fn from_bits(bits: u32) -> (r: Scalar)
        ensures
            r.bits == bits,
    {
        Scalar { bits }
    }

    /// The number of the other sign.
    pub fn negated(&self) -> (r: Scalar)
        ensures
            r.magnitude() == self.magnitude(),
            r.nan() == self.nan(),
            r.rank() == -self.rank(),
    {
        if self.bits >= SIGN_BIT {
            Scalar { bits: self.bits - SIGN_BIT }
        } else {
            Scalar { bits: self.bits + SIGN_BIT }
        }
    }

    /// Whether the pattern is that of no number.
    pub fn is_nan(&self) -> (r: bool)
        ensures
            r == self.nan(),
    {
        if self.bits >= SIGN_BIT {
            self.bits - SIGN_BIT > INFINITE_BITS
        } else {
            self.bits > INFINITE_BITS
        }
    }

    /// Whether the number is zero, of either sign.
    pub fn is_zero(&self) -> (r: bool)
        ensures
            r == self.zero(),
    {
        self.bits == 0 || self.bits == SIGN_BIT
    }

    fn place(&self) -> (r: i64)
        ensures
            r == self.rank(),
    {
        if self.bits >= SIGN_BIT {
            -((self.bits - SIGN_BIT) as i64)
        } else {
            self.bits as i64
        }
    }

    /// Whether this number is less than the other.
    pub fn is_below(&self, other: Scalar) -> (r: bool)
        ensures
            r == self.below(other),
    {
        !self.is_nan() && !other.is_nan() && self.place() < other.place()
    }

    /// Whether this number is at least `low` and at most `high`.
    pub fn is_within(&self, low: Scalar, high: Scalar) -> (r: bool)
        ensures
            r == self.within(low, high),
    {
        !self.is_nan() && low.place() <= self.place() && self.place() <= high.place()
    }

    /// Whether this number is more than `low` and less than `high`.
    pub fn is_between(&self, low: Scalar, high: Scalar) -> (r: bool)
        ensures
            r == self.between(low, high),
    {
        !self.is_nan() && low.place() < self.place() && self.place() < high.place()
    }
}

} // verus!
