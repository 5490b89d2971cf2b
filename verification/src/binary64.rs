//! Double-precision numbers, held by their IEEE 754 encoding.

use vstd::prelude::*;

verus! {

/// The encoding of positive infinity, the largest encoding that is a number.
pub const POSITIVE_INFINITY: u64 = 0x7FF0_0000_0000_0000;

/// The sign bit of an encoding: true for a negative number.
pub open spec fn sign_of(bits: u64) -> bool {
    bits / 0x8000_0000_0000_0000 == 1
}

/// The eleven exponent bits of an encoding.
pub open spec fn exponent_of(bits: u64) -> u64 {
    (bits / 0x10_0000_0000_0000) % 0x800
}

/// The fifty-two fraction bits of an encoding.
pub open spec fn fraction_of(bits: u64) -> u64 {
    bits % 0x10_0000_0000_0000
}

/// An encoding that stands for no number.
pub open spec fn is_nan(bits: u64) -> bool {
    exponent_of(bits) == 0x7FF && fraction_of(bits) != 0
}

/// An encoding of zero, of either sign.
pub open spec fn is_zero(bits: u64) -> bool {
    exponent_of(bits) == 0 && fraction_of(bits) == 0
}

/// An encoding of a number greater than zero, infinity included.
pub open spec fn is_positive(bits: u64) -> bool {
    !sign_of(bits) && !is_nan(bits) && !is_zero(bits)
}

/// A double-precision number. Two values are equal when their encodings
/// are: the two zeros differ, and a NaN equals itself.
#[derive(Clone, Copy, Debug, PartialEq, Eq, Structural)]
pub struct Binary64 {
    bits: u64,
}

impl View for Binary64 {
    type V = u64;

    /// The encoding.
    closed spec fn view(&self) -> u64 {
        self.bits
    }
}

impl Binary64 {
    /// The number with the encoding `bits`.
    pub fn from_bits(bits: u64) -> (x: Binary64)
        ensures
            x@ == bits,
    {
        Binary64 { bits }
    }

    /// The encoding of the number.
    pub fn to_bits(&self) -> (bits: u64)
        ensures
            bits == self@,
    {
        self.bits
    }

    /// Whether the number is greater than zero.
    pub fn is_positive(&self) -> (positive: bool)
        ensures
            positive == is_positive(self@),
    {
        0 < self.bits && self.bits <= POSITIVE_INFINITY
    }
}

/// The positive numbers are the encodings from the smallest subnormal up to
/// positive infinity.
pub proof fn lemma_positive_range(bits: u64)
    ensures
        is_positive(bits) <==> 0 < bits <= 0x7FF0_0000_0000_0000,
{
}

} // verus!
