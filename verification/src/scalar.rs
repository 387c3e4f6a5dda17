//! Real numbers as IEEE-754 binary64 bit patterns.
//!
//! A `Scalar` carries the 64 bits of a double-precision number: one sign bit,
//! eleven exponent bits and fifty-two fraction bits. Classification, ordering,
//! negation and clamping are decided on the bits alone, so they are exact and
//! need no floating-point unit. Arithmetic is not offered here.
use vstd::prelude::*;

verus! {

/// The sign bit of a binary64 pattern.
pub const SIGN_BIT: u64 = 0x8000_0000_0000_0000;

/// The pattern of positive infinity; every magnitude above it is a NaN.
pub const INFINITY_BITS: u64 = 0x7ff0_0000_0000_0000;

/// The pattern of `1.0`.
pub const ONE_BITS: u64 = 0x3ff0_0000_0000_0000;

/// The pattern of the double nearest to pi.
pub const PI_BITS: u64 = 0x4009_21fb_5444_2d18;

/// The pattern of the double nearest to two pi.
pub const TWO_PI_BITS: u64 = 0x4019_21fb_5444_2d18;

/// The pattern with the sign bit cleared.
pub open spec fn magnitude_of(bits: u64) -> u64 {
    if bits >= SIGN_BIT {
        (bits - SIGN_BIT) as u64
    } else {
        bits
    }
}

/// The sign bit is set. This holds of `-0.0` and of some NaNs too.
pub open spec fn sign_of(bits: u64) -> bool {
    bits >= SIGN_BIT
}

/// The pattern is a NaN: all exponent bits set and a non-zero fraction.
pub open spec fn nan_bits(bits: u64) -> bool {
    magnitude_of(bits) > INFINITY_BITS
}

/// An integer that orders the non-NaN patterns as their values are ordered:
/// the magnitude for a clear sign bit, its opposite for a set one. Both zeros
/// have rank 0.
pub open spec fn rank_of(bits: u64) -> int {
    if sign_of(bits) {
        -(magnitude_of(bits) as int)
    } else {
        magnitude_of(bits) as int
    }
}

/// The pattern with the sign bit flipped.
pub open spec fn negated_bits(bits: u64) -> u64 {
    if bits >= SIGN_BIT {
        (bits - SIGN_BIT) as u64
    } else {
        (bits + SIGN_BIT) as u64
    }
}

/// A double-precision number, held as its bit pattern.
#[derive(Clone, Copy, Debug)]
pub struct Scalar {
    pub bits: u64,
}

impl Scalar {
    /// The number is a NaN.
    pub open spec fn nan(self) -> bool {
        nan_bits(self.bits)
    }

    /// The number is neither a NaN nor an infinity.
    pub open spec fn finite(self) -> bool {
        magnitude_of(self.bits) < INFINITY_BITS
    }

    /// The place of the number in the order of the non-NaN numbers.
    pub open spec fn rank(self) -> int {
        rank_of(self.bits)
    }

    /// `self < other` as IEEE-754 orders them: false when either is a NaN.
    pub open spec fn less(self, other: Scalar) -> bool {
        !self.nan() && !other.nan() && self.rank() < other.rank()
    }

    /// `self <= other` as IEEE-754 orders them: false when either is a NaN.
    pub open spec fn at_most(self, other: Scalar) -> bool {
        !self.nan() && !other.nan() && self.rank() <= other.rank()
    }

    /// `self == other` as IEEE-754 compares them: a NaN equals nothing, and
    /// the two zeros are equal.
    pub open spec fn same_value(self, other: Scalar) -> bool {
        !self.nan() && !other.nan() && self.rank() == other.rank()
    }

    /// The number with the opposite sign.
    pub open spec fn negated(self) -> Scalar {
        Scalar { bits: negated_bits(self.bits) }
    }

    /// The number brought into `[0, 1]`: `0.0` below the range, `1.0` above
    /// it, and the number itself inside it or when it is a NaN.
    pub open spec fn clamped_unit(self) -> Scalar {
        if self.less(Scalar { bits: 0 }) {
            Scalar { bits: 0 }
        } else if (Scalar { bits: ONE_BITS }).less(self) {
            Scalar { bits: ONE_BITS }
        } else {
            self
        }
    }

    pub fn from_bits(bits: u64) -> (r: Scalar)
        ensures
            r.bits == bits,
    {
        Scalar { bits }
    }

    pub fn to_bits(self) -> (r: u64)
        ensures
            r == self.bits,
    {
        self.bits
    }

    /// `0.0`.
    pub fn zero() -> (r: Scalar)
        ensures
            r.bits == 0,
    {
        Scalar { bits: 0 }
    }

    /// `1.0`.
    pub fn one() -> (r: Scalar)
        ensures
            r.bits == ONE_BITS,
    {
        Scalar { bits: ONE_BITS }
    }

    /// The double nearest to pi.
    pub fn pi() -> (r: Scalar)
        ensures
            r.bits == PI_BITS,
    {
        Scalar { bits: PI_BITS }
    }

    /// The double nearest to two pi.
    pub fn two_pi() -> (r: Scalar)
        ensures
            r.bits == TWO_PI_BITS,
    {
        Scalar { bits: TWO_PI_BITS }
    }

    /// Positive infinity.
    pub fn infinity() -> (r: Scalar)
        ensures
            r.bits == INFINITY_BITS,
    {
        Scalar { bits: INFINITY_BITS }
    }

    /// The pattern without its sign bit.
    pub fn magnitude_bits(self) -> (r: u64)
        ensures
            r == magnitude_of(self.bits),
            r < SIGN_BIT,
    {
        if self.bits >= SIGN_BIT {
            self.bits - SIGN_BIT
        } else {
            self.bits
        }
    }

    pub fn is_sign_negative(self) -> (r: bool)
        ensures
            r == sign_of(self.bits),
    {
        self.bits >= SIGN_BIT
    }

    pub fn is_nan(self) -> (r: bool)
        ensures
            r == self.nan(),
    {
        self.magnitude_bits() > INFINITY_BITS
    }

    pub fn is_finite(self) -> (r: bool)
        ensures
            r == self.finite(),
    {
        self.magnitude_bits() < INFINITY_BITS
    }

    /// `self < other`.
    pub fn lt(self, other: Scalar) -> (r: bool)
        ensures
            r == self.less(other),
    {
        if self.is_nan() || other.is_nan() {
            return false;
        }
        let a: u64 = self.magnitude_bits();
        let b: u64 = other.magnitude_bits();
        if self.is_sign_negative() {
            if other.is_sign_negative() {
                b < a
            } else {
                a != 0 || b != 0
            }
        } else {
            if other.is_sign_negative() {
                false
            } else {
                a < b
            }
        }
    }

    /// `self <= other`.
    pub fn le(self, other: Scalar) -> (r: bool)
        ensures
            r == self.at_most(other),
    {
        if self.is_nan() || other.is_nan() {
            return false;
        }
        let a: u64 = self.magnitude_bits();
        let b: u64 = other.magnitude_bits();
        if self.is_sign_negative() {
            if other.is_sign_negative() {
                b <= a
            } else {
                true
            }
        } else {
            if other.is_sign_negative() {
                a == 0 && b == 0
            } else {
                a <= b
            }
        }
    }

    /// `self > other`.
    pub fn gt(self, other: Scalar) -> (r: bool)
        ensures
            r == other.less(self),
    {
        other.lt(self)
    }

    /// `self >= other`.
    pub fn ge(self, other: Scalar) -> (r: bool)
        ensures
            r == other.at_most(self),
    {
        other.le(self)
    }

    /// `self == other` by value.
    pub fn value_eq(self, other: Scalar) -> (r: bool)
        ensures
            r == self.same_value(other),
    {
        if self.is_nan() || other.is_nan() {
            return false;
        }
        let a: u64 = self.magnitude_bits();
        let b: u64 = other.magnitude_bits();
        if self.is_sign_negative() == other.is_sign_negative() {
            a == b
        } else {
            a == 0 && b == 0
        }
    }

    /// `-self`.
    pub fn neg(self) -> (r: Scalar)
        ensures
            r == self.negated(),
    {
        if self.bits >= SIGN_BIT {
            Scalar { bits: self.bits - SIGN_BIT }
        } else {
            Scalar { bits: self.bits + SIGN_BIT }
        }
    }

    /// The number clamped into `[0, 1]`.
    pub fn clamp_unit(self) -> (r: Scalar)
        ensures
            r == self.clamped_unit(),
    {
        if self.lt(Scalar::zero()) {
            Scalar::zero()
        } else if Scalar::one().lt(self) {
            Scalar::one()
        } else {
            self
        }
    }
}

/// A number and its opposite are ordered the other way round, so the order
/// is mirrored at zero.
pub proof fn lemma_negation_mirrors_order(a: Scalar, b: Scalar)
    ensures
        a.negated().negated() == a,
        a.negated().nan() == a.nan(),
        a.negated().rank() == -a.rank(),
        a.less(b) == b.negated().less(a.negated()),
        a.at_most(b) == b.negated().at_most(a.negated()),
{
}

/// The order on the non-NaN numbers is a total preorder whose ties are the
/// equal values; a NaN is ordered with nothing.
pub proof fn lemma_order_is_total_on_numbers(a: Scalar, b: Scalar, c: Scalar)
    ensures
        !a.less(a),
        a.at_most(a) == !a.nan(),
        a.less(b) && b.less(c) ==> a.less(c),
        a.at_most(b) && b.at_most(c) ==> a.at_most(c),
        a.at_most(b) == (a.less(b) || a.same_value(b)),
        !a.nan() && !b.nan() ==> (a.less(b) || a.same_value(b) || b.less(a)),
        a.nan() || b.nan() ==> !a.less(b) && !a.at_most(b) && !a.same_value(b),
{
}

/// Clamping yields a number in `[0, 1]` unless the input is a NaN, leaves a
/// number of that range as it is, and is idempotent.
pub proof fn lemma_clamp_unit_range(a: Scalar)
    ensures
        a.nan() ==> a.clamped_unit() == a,
        !a.nan() ==> (Scalar { bits: 0 }).at_most(a.clamped_unit()) && a.clamped_unit().at_most(
            Scalar { bits: ONE_BITS },
        ),
        (Scalar { bits: 0 }).at_most(a) && a.at_most(Scalar { bits: ONE_BITS })
            ==> a.clamped_unit() == a,
        a.clamped_unit().clamped_unit() == a.clamped_unit(),
{
}

} // verus!
