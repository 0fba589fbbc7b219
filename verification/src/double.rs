//! IEEE-754 binary64 numbers, held as their 64-bit patterns.
//!
//! A pattern is `sign * 2^63 + exponent * 2^52 + fraction`, with a one-bit
//! sign, an eleven-bit biased exponent and a 52-bit fraction. The predicates
//! below classify a pattern as the standard does: an exponent of all ones
//! marks an infinity (fraction zero) or a NaN (fraction not zero), and an
//! exponent and a fraction of zero mark a zero of either sign.

use vstd::prelude::*;

verus! {

/// The pattern of positive zero.
pub const ZERO: u64 = 0;

/// The pattern of the number one.
pub const ONE: u64 = 0x3FF0_0000_0000_0000;

/// The pattern of positive infinity, which is also the mask of the exponent
/// field.
pub const POSITIVE_INFINITY: u64 = 0x7FF0_0000_0000_0000;

/// The pattern of negative zero, the least pattern that carries the sign.
pub const NEGATIVE_ZERO: u64 = 0x8000_0000_0000_0000;

/// The pattern of negative infinity, the greatest pattern that carries the
/// sign and is not a NaN.
pub const NEGATIVE_INFINITY: u64 = 0xFFF0_0000_0000_0000;

/// A binary64 number, identified by its bit pattern.
#[derive(Clone, Copy, PartialEq, Eq, Structural, Debug)]
pub struct Double {
    pub bits: u64,
}

impl Double {
    /// Whether the sign bit is set.
    pub open spec fn sign(self) -> bool {
        self.bits / 0x8000_0000_0000_0000 == 1
    }

    /// The biased exponent field, in `0..=0x7FF`.
    pub open spec fn exponent(self) -> nat {
        ((self.bits / 0x10_0000_0000_0000) % 0x800) as nat
    }

    /// The fraction field, in `0..2^52`.
    pub open spec fn fraction(self) -> nat {
        (self.bits % 0x10_0000_0000_0000) as nat
    }

    /// Not a number: the exponent is all ones and the fraction is not zero.
    pub open spec fn is_nan(self) -> bool {
        self.exponent() == 0x7FF && self.fraction() != 0
    }

    /// Positive or negative zero.
    pub open spec fn is_zero(self) -> bool {
        self.exponent() == 0 && self.fraction() == 0
    }

    /// Neither infinite nor NaN: the exponent is not all ones.
    pub open spec fn spec_is_finite(self) -> bool {
        self.exponent() != 0x7FF
    }

    /// The number compares `<= 0`: it is not NaN, and it is zero or carries
    /// the sign.
    pub open spec fn spec_is_non_positive(self) -> bool {
        !self.is_nan() && (self.sign() || self.is_zero())
    }

    /// The number compares `> 0`: it is not NaN, not zero, and carries no
    /// sign.
    pub open spec fn is_positive(self) -> bool {
        !self.is_nan() && !self.sign() && !self.is_zero()
    }

    /// The number with the given bit pattern.
    pub fn from_bits(bits: u64) -> (d: Double)
        ensures
            d.bits == bits,
    {
        Double { bits }
    }

    /// The bit pattern of the number.
    pub fn to_bits(self) -> (bits: u64)
        ensures
            bits == self.bits,
    {
        self.bits
    }

    /// Whether the number is neither infinite nor NaN.
    #[verifier::when_used_as_spec(spec_is_finite)]
    pub fn is_finite(self) -> (b: bool)
        ensures
            b == self.spec_is_finite(),
    {
        let bits: u64 = self.bits;
        assert(((bits & 0x7FF0_0000_0000_0000) != 0x7FF0_0000_0000_0000) == ((bits
            / 0x10_0000_0000_0000) % 0x800 != 0x7FF)) by (bit_vector);
        (bits & POSITIVE_INFINITY) != POSITIVE_INFINITY
    }

    /// Whether the number compares `<= 0`.
    ///
    /// These are positive zero and the patterns from negative zero up to
    /// negative infinity; the patterns above negative infinity are NaNs.
    #[verifier::when_used_as_spec(spec_is_non_positive)]
    pub fn is_non_positive(self) -> (b: bool)
        ensures
            b == self.spec_is_non_positive(),
    {
        let bits: u64 = self.bits;
        assert((bits == 0 || (0x8000_0000_0000_0000 <= bits && bits <= 0xFFF0_0000_0000_0000))
            == (!((bits / 0x10_0000_0000_0000) % 0x800 == 0x7FF && bits % 0x10_0000_0000_0000
            != 0) && (bits / 0x8000_0000_0000_0000 == 1 || ((bits / 0x10_0000_0000_0000) % 0x800
            == 0 && bits % 0x10_0000_0000_0000 == 0)))) by (bit_vector);
        bits == ZERO || (NEGATIVE_ZERO <= bits && bits <= NEGATIVE_INFINITY)
    }
}

} // verus!
