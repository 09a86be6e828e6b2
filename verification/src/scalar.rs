//! Real quantities, held by their IEEE 754 binary32 encoding.
//!
//! Every real-valued field of this crate is a [`Scalar`]: the 32 bits of a
//! single-precision number. The crate never adds or multiplies such values;
//! it orders, tests and clamps them, and all of that is decided on the
//! encoding alone. Callers form sums and products in hardware arithmetic and
//! hand the encoded result in.
//!
//! The order is read off the encoding through [`Scalar::rank`]: the low 31
//! bits are the magnitude, the top bit is the sign, and two numbers that are
//! not NaN compare as their signed magnitudes do. Both zeros have rank 0.
use vstd::prelude::*;

verus! {

/// The sign bit of an encoding.
pub const SIGN_BIT: u32 = 0x8000_0000;

/// The encoding of positive infinity; a larger magnitude is a NaN.
pub const INFINITY_BITS: u32 = 0x7F80_0000;

/// A single-precision number, held by its 32-bit encoding.
#[derive(Clone, Copy, Debug, PartialEq, Eq, Structural)]
pub struct Scalar {
    pub bits: u32,
}

impl Scalar {
    /// The encoding without its sign bit.
    pub open spec fn magnitude(self) -> int {
        if self.bits >= SIGN_BIT {
            self.bits - SIGN_BIT
        } else {
            self.bits as int
        }
    }

    /// Whether the sign bit is set. Holds of `-0.0` and of some NaNs too.
    pub open spec fn sign_set(self) -> bool {
        self.bits >= SIGN_BIT
    }

    /// Whether the encoding is a NaN.
    pub open spec fn nan(self) -> bool {
        self.magnitude() > INFINITY_BITS
    }

    /// The signed magnitude. For two numbers that are not NaN, the one with
    /// the smaller rank is the smaller number, and equal ranks are equal
    /// numbers.
    pub open spec fn rank(self) -> int {
        if self.sign_set() {
            -self.magnitude()
        } else {
            self.magnitude()
        }
    }

    /// `self < other` as numbers: false as soon as either is a NaN.
    pub open spec fn lt(self, other: Scalar) -> bool {
        !self.nan() && !other.nan() && self.rank() < other.rank()
    }

    /// `self <= other` as numbers: false as soon as either is a NaN.
    pub open spec fn le(self, other: Scalar) -> bool {
        !self.nan() && !other.nan() && self.rank() <= other.rank()
    }

    /// `self > other` as numbers.
    pub open spec fn gt(self, other: Scalar) -> bool {
        other.lt(self)
    }

    /// `lo <= self <= hi` as numbers.
    pub open spec fn within(self, lo: Scalar, hi: Scalar) -> bool {
        lo.le(self) && self.le(hi)
    }

    /// The encoding with the sign bit cleared.
    pub open spec fn abs_spec(self) -> Scalar {
        Scalar { bits: self.magnitude() as u32 }
    }

    /// The encoding with the sign bit flipped.
    pub open spec fn neg_spec(self) -> Scalar {
        if self.sign_set() {
            Scalar { bits: (self.bits - SIGN_BIT) as u32 }
        } else {
            Scalar { bits: (self.bits + SIGN_BIT) as u32 }
        }
    }

    /// `lo` below `lo`, `hi` above `hi`, and `self` otherwise; a NaN is
    /// neither below nor above and stays as it is.
    pub open spec fn clamp_spec(self, lo: Scalar, hi: Scalar) -> Scalar {
        if self.lt(lo) {
            lo
        } else if self.gt(hi) {
            hi
        } else {
            self
        }
    }

    /// The smaller of `self` and `cap`, where `cap` is not a NaN: a NaN
    /// `self` gives `cap`.
    pub open spec fn min_spec(self, cap: Scalar) -> Scalar {
        if self.lt(cap) {
            self
        } else {
            cap
        }
    }

    /// Wraps an encoding.
    pub fn from_bits(bits: u32) -> (s: Scalar)
        ensures
            s.bits == bits,
    {
        Scalar { bits }
    }

    /// The encoding.
    pub fn to_bits(self) -> (bits: u32)
        ensures
            bits == self.bits,
    {
        self.bits
    }

    fn magnitude_bits(self) -> (m: u32)
        ensures
            m == self.magnitude(),
            m < SIGN_BIT,
    {
        if self.bits >= SIGN_BIT {
            self.bits - SIGN_BIT
        } else {
            self.bits
        }
    }

    /// Whether this is a NaN.
    pub fn is_nan(self) -> (r: bool)
        ensures
            r == self.nan(),
    {
        self.magnitude_bits() > INFINITY_BITS
    }

    /// Whether `self < other` as numbers.
    pub fn less_than(self, other: Scalar) -> (r: bool)
        ensures
            r == self.lt(other),
    {
        if self.is_nan() || other.is_nan() {
            return false;
        }
        let a: u32 = self.magnitude_bits();
        let b: u32 = other.magnitude_bits();
        if self.bits >= SIGN_BIT {
            if other.bits >= SIGN_BIT {
                b < a
            } else {
                a > 0 || b > 0
            }
        } else {
            if other.bits >= SIGN_BIT {
                false
            } else {
                a < b
            }
        }
    }

    /// Whether `self > other` as numbers.
    pub fn greater_than(self, other: Scalar) -> (r: bool)
        ensures
            r == self.gt(other),
    {
        other.less_than(self)
    }

    /// The absolute value: the sign bit is cleared, of a NaN too.
    pub fn abs(self) -> (r: Scalar)
        ensures
            r == self.abs_spec(),
    {
        Scalar { bits: self.magnitude_bits() }
    }

    /// The negation: the sign bit is flipped, of a NaN and of zero too.
    pub fn neg(self) -> (r: Scalar)
        ensures
            r == self.neg_spec(),
    {
        if self.bits >= SIGN_BIT {
            Scalar { bits: self.bits - SIGN_BIT }
        } else {
            Scalar { bits: self.bits + SIGN_BIT }
        }
    }

    /// Holds `self` within `lo..=hi`.
    pub fn clamp(self, lo: Scalar, hi: Scalar) -> (r: Scalar)
        requires
            lo.le(hi),
        ensures
            r == self.clamp_spec(lo, hi),
    {
        if self.less_than(lo) {
            lo
        } else if self.greater_than(hi) {
            hi
        } else {
            self
        }
    }

    /// The smaller of `self` and `cap`; `cap` where `self` is a NaN.
    pub fn min(self, cap: Scalar) -> (r: Scalar)
        requires
            !cap.nan(),
        ensures
            r == self.min_spec(cap),
    {
        if self.less_than(cap) {
            self
        } else {
            cap
        }
    }
}

/// Three scalars: a point or a direction in space.
#[derive(Clone, Copy, Debug, PartialEq, Eq, Structural)]
pub struct Vector3 {
    pub x: Scalar,
    pub y: Scalar,
    pub z: Scalar,
}

/// A clamped number lies within the bounds unless it was a NaN, and a number
/// within the bounds is left as it is.
pub proof fn lemma_clamp_within(x: Scalar, lo: Scalar, hi: Scalar)
    requires
        lo.le(hi),
    ensures
        x.nan() ==> x.clamp_spec(lo, hi) == x,
        !x.nan() ==> x.clamp_spec(lo, hi).within(lo, hi),
        x.within(lo, hi) ==> x.clamp_spec(lo, hi) == x,
        x.clamp_spec(lo, hi).clamp_spec(lo, hi) == x.clamp_spec(lo, hi),
{
}

} // verus!
