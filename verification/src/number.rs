//! Numbers as the engine holds them.
//!
//! The engine never computes with a number. It carries each one as the bit
//! pattern of an IEEE 754 binary64 value and reads from the pattern only what
//! its rules depend on: whether the number is finite and whether it is zero.
//! Arithmetic, and the conversions between numbers and text, belong to the
//! caller.
use vstd::prelude::*;

verus! {

/// An IEEE 754 binary64 value, held by its 64 bits: one bit of sign, eleven of
/// exponent, fifty-two of fraction.
#[derive(Clone, Copy, Debug, PartialEq, Eq, Structural)]
pub struct Number {
    pub bits: u64,
}

impl Number {
    /// The biased exponent: bits 52 to 62.
    pub open spec fn exponent(self) -> nat {
        (self.bits as nat / 0x10_0000_0000_0000) % 0x800
    }

    /// The fraction: bits 0 to 51.
    pub open spec fn fraction(self) -> nat {
        self.bits as nat % 0x10_0000_0000_0000
    }

    /// Neither an infinity nor a NaN: the exponent is not all ones.
    pub open spec fn finite(self) -> bool {
        self.exponent() != 0x7ff
    }

    /// Positive or negative zero: exponent and fraction are both zero.
    pub open spec fn zero(self) -> bool {
        self.exponent() == 0 && self.fraction() == 0
    }

    /// The number with the given bit pattern.
    pub fn from_bits(bits: u64) -> (r: Number)
        ensures
            r.bits == bits,
    {
        Number { bits }
    }

    /// The bit pattern of the number.
    pub fn to_bits(self) -> (r: u64)
        ensures
            r == self.bits,
    {
        self.bits
    }

    /// Whether the number is finite.
    pub fn is_finite(self) -> (r: bool)
        ensures
            r == self.finite(),
    {
        let bits: u64 = self.bits;
        assert((bits >> 52) & 0x7ff == (bits / 0x10_0000_0000_0000) % 0x800) by (bit_vector);
        (bits >> 52) & 0x7ff != 0x7ff
    }

    /// Whether the number is a zero of either sign.
    pub fn is_zero(self) -> (r: bool)
        ensures
            r == self.zero(),
    {
        let bits: u64 = self.bits;
        assert((bits & 0x7fff_ffff_ffff_ffff == 0) <==> ((bits / 0x10_0000_0000_0000) % 0x800 == 0
            && bits % 0x10_0000_0000_0000 == 0)) by (bit_vector);
        bits & 0x7fff_ffff_ffff_ffff == 0
    }
}

/// The quotient of two numbers, kept unevaluated: `numerator / denominator`.
#[derive(Clone, Copy, Debug, PartialEq, Eq, Structural)]
pub struct Ratio {
    pub numerator: Number,
    pub denominator: Number,
}

impl Ratio {
    /// The quotient of a finite non-zero number by itself, which is one.
    pub open spec fn is_one(self) -> bool {
        &&& self.numerator == self.denominator
        &&& self.denominator.finite()
        &&& !self.denominator.zero()
    }
}

} // verus!
