use vstd::prelude::*;

verus! {

/// Bit pattern of the IEEE-754 double `1.0`.
pub const NORMAL_RATE_BITS: u64 = 0x3FF0_0000_0000_0000;

/// Bit pattern of the IEEE-754 double `+inf`.
pub const POSITIVE_INFINITY_BITS: u64 = 0x7FF0_0000_0000_0000;

/// Bit pattern of the IEEE-754 double `-0.0`.
pub const NEGATIVE_ZERO_BITS: u64 = 0x8000_0000_0000_0000;

/// A playback rate multiplier, held as the bit pattern of an IEEE-754 double
/// so that every decision on it is exact. Negative rates play backwards.
#[derive(Clone, Copy, Debug, PartialEq, Eq, Structural)]
pub struct Rate {
    pub bits: u64,
}

/// A rate plays forwards when, as a double, it compares greater than zero:
/// the sign bit is clear and the value is neither zero nor a NaN. Those are
/// exactly the patterns from the smallest positive subnormal up to `+inf`.
pub open spec fn forward_bits(bits: u64) -> bool {
    0 < bits && bits <= POSITIVE_INFINITY_BITS
}

/// `+0.0` or `-0.0`.
pub open spec fn zero_bits(bits: u64) -> bool {
    bits == 0 || bits == NEGATIVE_ZERO_BITS
}

/// A NaN: all exponent bits set and a non-zero mantissa, either sign.
pub open spec fn nan_bits(bits: u64) -> bool {
    (POSITIVE_INFINITY_BITS < bits && bits < NEGATIVE_ZERO_BITS) || 0xFFF0_0000_0000_0000u64
        < bits
}

/// The doubles `x` for which `|x - 1.0| <= f64::EPSILON`: `1.0`, the next
/// double above it, and the two doubles below it (their spacing there is half
/// an epsilon). A NaN compares false as well, so it also counts as normal speed.
pub open spec fn normal_speed_bits(bits: u64) -> bool {
    ||| bits == NORMAL_RATE_BITS
    ||| bits == NORMAL_RATE_BITS + 1
    ||| bits == NORMAL_RATE_BITS - 1
    ||| bits == NORMAL_RATE_BITS - 2
    ||| nan_bits(bits)
}

impl Rate {
    /// The rate with the given double's bit pattern (`f64::to_bits`).
    pub fn from_bits(bits: u64) -> (r: Rate)
        ensures
            r.bits == bits,
    {
        Rate { bits }
    }

    /// The bit pattern of this rate as a double (for `f64::from_bits`).
    pub fn to_bits(&self) -> (r: u64)
        ensures
            r == self.bits,
    {
        self.bits
    }

    /// Normal playback speed, `1.0`.
    pub open spec fn normal_spec() -> Rate {
        Rate { bits: NORMAL_RATE_BITS }
    }

    /// Normal playback speed, `1.0`.
    pub fn normal() -> (r: Rate)
        ensures
            r == Rate::normal_spec(),
    {
        Rate { bits: NORMAL_RATE_BITS }
    }

    /// Whether this rate plays forwards (`rate > 0.0`).
    pub fn is_forward(&self) -> (r: bool)
        ensures
            r == forward_bits(self.bits),
    {
        0 < self.bits && self.bits <= POSITIVE_INFINITY_BITS
    }

    /// Whether this rate is zero, of either sign.
    pub fn is_zero(&self) -> (r: bool)
        ensures
            r == zero_bits(self.bits),
    {
        self.bits == 0 || self.bits == NEGATIVE_ZERO_BITS
    }

    /// Whether this rate is within one machine epsilon of normal speed, and so
    /// needs no rate change on the pipeline.
    pub fn is_normal_speed(&self) -> (r: bool)
        ensures
            r == normal_speed_bits(self.bits),
    {
        let b = self.bits;
        b == NORMAL_RATE_BITS || b == NORMAL_RATE_BITS + 1 || b == NORMAL_RATE_BITS - 1 || b
            == NORMAL_RATE_BITS - 2 || (POSITIVE_INFINITY_BITS < b && b < NEGATIVE_ZERO_BITS)
            || 0xFFF0_0000_0000_0000u64 < b
    }
}


/// A framerate as the pipeline negotiates it, `numer / denom` frames per second.
#[derive(Clone, Copy, Debug, PartialEq, Eq, Structural)]
pub struct Fraction {
    pub numer: i32,
    pub denom: i32,
}

/// A fraction is a usable framerate when it is a finite number above zero:
/// a zero denominator gives an infinity or a NaN, a zero numerator gives
/// zero, and opposite signs give a negative rate.
pub open spec fn positive_fraction(f: Fraction) -> bool {
    f.numer != 0 && f.denom != 0 && (f.numer > 0) == (f.denom > 0)
}

impl Fraction {
    /// Whether this fraction is a usable framerate.
    pub fn is_positive(&self) -> (r: bool)
        ensures
            r == positive_fraction(*self),
    {
        self.numer != 0 && self.denom != 0 && (self.numer > 0) == (self.denom > 0)
    }
}

} // verus!
