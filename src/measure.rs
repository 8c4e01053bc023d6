use vstd::prelude::*;

verus! {

/// The sign bit of a double.
pub const SIGN_MASK: u64 = 0x8000_0000_0000_0000;

/// The exponent and fraction bits of a double: its magnitude.
pub const MAGNITUDE_MASK: u64 = 0x7fff_ffff_ffff_ffff;

/// The exponent bits of a double.
pub const EXPONENT_MASK: u64 = 0x7ff0_0000_0000_0000;

/// The fraction bits of a double.
pub const FRACTION_MASK: u64 = 0x000f_ffff_ffff_ffff;

/// The bit pattern of the double `0.0`.
pub const ZERO_BITS: u64 = 0;

/// The bit pattern of the double `360.0`, a full turn in degrees.
pub const FULL_TURN_BITS: u64 = 0x4076_8000_0000_0000;

/// A measurement: a double-precision value, held as its IEEE-754 bit pattern.
#[derive(Clone, Copy, Debug)]
pub struct Measure {
    pub bits: u64,
}

/// Whether the pattern `b` is a NaN: all exponent bits set, fraction non-zero.
pub open spec fn is_nan(b: u64) -> bool {
    (b & EXPONENT_MASK) == EXPONENT_MASK && (b & FRACTION_MASK) != 0
}

/// The position of a non-NaN pattern on the number line: its magnitude bits,
/// negated when the sign bit is set. Both zeros sit at 0, and for non-NaN
/// patterns the order of doubles is the order of these keys.
pub open spec fn key(b: u64) -> int {
    if (b & SIGN_MASK) != 0 {
        -((b & MAGNITUDE_MASK) as int)
    } else {
        (b & MAGNITUDE_MASK) as int
    }
}

/// The double comparison `x <= y`: false as soon as either side is NaN.
pub open spec fn le(x: u64, y: u64) -> bool {
    !is_nan(x) && !is_nan(y) && key(x) <= key(y)
}

/// The double comparison `x < y`: false as soon as either side is NaN.
pub open spec fn lt(x: u64, y: u64) -> bool {
    !is_nan(x) && !is_nan(y) && key(x) < key(y)
}

/// Whether a measurement passes the "strictly positive" rule, `0.0 < x`.
/// Zero of either sign, every negative value and every NaN fail it.
pub open spec fn passes_positive(b: u64) -> bool {
    lt(ZERO_BITS, b)
}

/// Whether a measurement is zero or negative: the double comparison
/// `x <= 0.0`, which is false for a NaN.
pub open spec fn non_positive(b: u64) -> bool {
    le(b, ZERO_BITS)
}

/// A measurement passes the "strictly positive" rule exactly when it is
/// neither zero or negative nor a NaN.
pub proof fn lemma_positive_split(b: u64)
    ensures
        passes_positive(b) <==> !non_positive(b) && !is_nan(b),
{
    assert(0u64 & 0x7ff0_0000_0000_0000u64 == 0u64) by (bit_vector);
    assert(!is_nan(ZERO_BITS));
}

proof fn lemma_magnitude_bound(b: u64)
    ensures
        b & MAGNITUDE_MASK <= MAGNITUDE_MASK,
{
    assert(b & 0x7fff_ffff_ffff_ffffu64 <= 0x7fff_ffff_ffff_ffffu64) by (bit_vector);
}

impl Measure {
    /// The measurement whose bit pattern is `bits`.
    pub fn from_bits(bits: u64) -> (r: Measure)
        ensures
            r.bits == bits,
    {
        Measure { bits }
    }

    /// Whether this measurement is a NaN.
    pub fn is_nan(self) -> (r: bool)
        ensures
            r == is_nan(self.bits),
    {
        (self.bits & EXPONENT_MASK) == EXPONENT_MASK && (self.bits & FRACTION_MASK) != 0
    }

    fn key(self) -> (r: i64)
        ensures
            r as int == key(self.bits),
    {
        proof {
            lemma_magnitude_bound(self.bits);
        }
        let magnitude = (self.bits & MAGNITUDE_MASK) as i64;
        if (self.bits & SIGN_MASK) != 0 {
            -magnitude
        } else {
            magnitude
        }
    }

    /// The double comparison `self <= other`.
    pub fn le(self, other: Measure) -> (r: bool)
        ensures
            r == le(self.bits, other.bits),
    {
        !self.is_nan() && !other.is_nan() && self.key() <= other.key()
    }

    /// The double comparison `self < other`.
    pub fn lt(self, other: Measure) -> (r: bool)
        ensures
            r == lt(self.bits, other.bits),
    {
        !self.is_nan() && !other.is_nan() && self.key() < other.key()
    }
}

} // verus!
