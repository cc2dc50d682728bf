//! Gain factors.
//!
//! A gain is carried as the bit pattern of an IEEE-754 single-precision
//! number, so that the host can pass it to and from its audio backend without
//! loss. Ordering and clamping are defined on the pattern itself.
use vstd::prelude::*;

verus! {

/// Bit pattern of `0.0`.
pub const ZERO_BITS: u32 = 0;

/// Bit pattern of `1.0`.
pub const UNITY_BITS: u32 = 0x3f80_0000;

/// Bit pattern of `2.0`.
pub const DOUBLE_BITS: u32 = 0x4000_0000;

/// Bit pattern of positive infinity; every larger magnitude is a NaN.
pub const INFINITY_BITS: u32 = 0x7f80_0000;

/// The lowest pattern whose sign bit is set (`-0.0`).
pub const SIGN_BIT: u32 = 0x8000_0000;

/// A gain factor, as a single-precision bit pattern.
#[derive(Clone, Copy, Debug, PartialEq, Eq, Structural)]
pub struct Gain {
    pub bits: u32,
}

impl Gain {
    /// The pattern with the sign bit cleared.
    pub open spec fn magnitude(self) -> int {
        if self.bits >= SIGN_BIT {
            self.bits - SIGN_BIT
        } else {
            self.bits as int
        }
    }

    /// Whether the pattern denotes no number at all.
    pub open spec fn is_nan(self) -> bool {
        self.magnitude() > INFINITY_BITS
    }

    /// A key that orders the patterns as the numbers they denote: for two
    /// patterns that are not NaN, the denoted numbers compare as their keys
    /// do. Both zeros have key 0.
    pub open spec fn key(self) -> int {
        if self.bits >= SIGN_BIT {
            -self.magnitude()
        } else {
            self.magnitude()
        }
    }

    /// `self < other` as numbers. False whenever either side is NaN.
    pub open spec fn less_than(self, other: Gain) -> bool {
        !self.is_nan() && !other.is_nan() && self.key() < other.key()
    }

    /// Whether the gain is a number within `[0, 2]`.
    pub open spec fn in_range(self) -> bool {
        !self.is_nan() && 0 <= self.key() <= DOUBLE_BITS
    }

    /// The gain limited to `[0, 2]`: numbers below the range become `0.0`,
    /// numbers above it become `2.0`, everything else (NaN included) is kept.
    pub open spec fn clamped_spec(self) -> Gain {
        if self.less_than(Gain { bits: ZERO_BITS }) {
            Gain { bits: ZERO_BITS }
        } else if (Gain { bits: DOUBLE_BITS }).less_than(self) {
            Gain { bits: DOUBLE_BITS }
        } else {
            self
        }
    }

    pub fn from_bits(bits: u32) -> (g: Gain)
        ensures
            g.bits == bits,
    {
        Gain { bits }
    }

    pub fn to_bits(self) -> (bits: u32)
        ensures
            bits == self.bits,
    {
        self.bits
    }

    /// The gain `0.0`.
    pub fn zero() -> (g: Gain)
        ensures
            g.bits == ZERO_BITS,
    {
        Gain { bits: ZERO_BITS }
    }

    /// The gain `1.0`, which leaves a clip at its recorded level.
    pub fn unity() -> (g: Gain)
        ensures
            g.bits == UNITY_BITS,
    {
        Gain { bits: UNITY_BITS }
    }

    /// The gain `2.0`, the upper end of the accepted range.
    pub fn double() -> (g: Gain)
        ensures
            g.bits == DOUBLE_BITS,
    {
        Gain { bits: DOUBLE_BITS }
    }

    /// Limits the gain to `[0, 2]`.
    pub fn clamped(self) -> (g: Gain)
        ensures
            g == self.clamped_spec(),
            !self.is_nan() ==> g.in_range(),
            self.in_range() ==> g == self,
    {
        if self.bits > SIGN_BIT && self.bits <= SIGN_BIT + INFINITY_BITS {
            Gain { bits: ZERO_BITS }
        } else if self.bits > DOUBLE_BITS && self.bits <= INFINITY_BITS {
            Gain { bits: DOUBLE_BITS }
        } else {
            self
        }
    }
}

/// Clamping never lets a number outside `[0, 2]` through: a number below the
/// range is replaced by `0.0`, one above it by `2.0`, one inside it is kept,
/// and clamping twice changes nothing more.
pub proof fn clamp_stays_in_range(v: Gain)
    ensures
        !v.is_nan() ==> v.clamped_spec().in_range(),
        !v.is_nan() && v.key() < 0 ==> v.clamped_spec().bits == ZERO_BITS,
        !v.is_nan() && v.key() > DOUBLE_BITS ==> v.clamped_spec().bits == DOUBLE_BITS,
        v.in_range() ==> v.clamped_spec() == v,
        !v.is_nan() && !v.in_range() ==> v.clamped_spec() != v,
        v.clamped_spec().clamped_spec() == v.clamped_spec(),
{
}

} // verus!
