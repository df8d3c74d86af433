//! The ellipsoid: three semi-axis lengths.
//!
//! An axis length is a single-precision number. It is carried here as the
//! 32 bits of its IEEE 754 encoding (sign, 8 exponent bits, 23 fraction
//! bits), which is all that is needed to decide whether it is positive.

use vstd::prelude::*;

verus! {

/// The sign bit of an encoded number is set.
pub open spec fn sign_is_set(bits: u32) -> bool {
    bits >> 31u32 == 1u32
}

/// The 8-bit biased exponent of an encoded number.
pub open spec fn exponent_field(bits: u32) -> u32 {
    (bits >> 23u32) & 0xffu32
}

/// The 23-bit fraction of an encoded number.
pub open spec fn fraction_field(bits: u32) -> u32 {
    bits & 0x7f_ffffu32
}

/// The encoding stands for no number at all: the exponent is all ones and
/// the fraction is not zero.
pub open spec fn encodes_nan(bits: u32) -> bool {
    exponent_field(bits) == 0xffu32 && fraction_field(bits) != 0u32
}

/// The encoding stands for zero, of either sign.
pub open spec fn encodes_zero(bits: u32) -> bool {
    exponent_field(bits) == 0u32 && fraction_field(bits) == 0u32
}

/// The largest encoding of a positive value, that of positive infinity.
pub const POSITIVE_INFINITY_BITS: u32 = 0x7f80_0000;

/// The encoded number is strictly greater than zero. With the sign bit
/// clear, encodings are ordered as the numbers they stand for: the positive
/// ones lie above the encoding of zero, up to that of positive infinity,
/// which counts as positive. Above it lie the encodings of no number, and
/// those with the sign bit set.
pub open spec fn encodes_positive(bits: u32) -> bool {
    0 < bits <= POSITIVE_INFINITY_BITS
}

/// An encoding is positive exactly when its sign bit is clear and its
/// exponent and fraction stand for a number other than zero.
pub proof fn lemma_positive_encodings(bits: u32)
    ensures
        encodes_positive(bits) <==> !sign_is_set(bits) && !encodes_nan(bits) && !encodes_zero(
            bits,
        ),
{
    assert((0u32 < bits && bits <= 0x7f80_0000u32) <==> (!(bits >> 31u32 == 1u32) && !((bits
        >> 23u32) & 0xffu32 == 0xffu32 && bits & 0x7f_ffffu32 != 0u32) && !((bits >> 23u32)
        & 0xffu32 == 0u32 && bits & 0x7f_ffffu32 == 0u32))) by (bit_vector);
}

/// Decides whether an encoded axis length is strictly positive.
pub fn is_positive_length(bits: u32) -> (ok: bool)
    ensures
        ok == encodes_positive(bits),
{
    0 < bits && bits <= POSITIVE_INFINITY_BITS
}

/// An axis-aligned ellipsoid, given by the encodings of its three semi-axis
/// lengths.
#[derive(Clone, Copy, Debug, PartialEq, Eq, Structural)]
pub struct EllipsoidShape {
    /// Encoded semi-axis length along the first axis.
    pub a: u32,
    /// Encoded semi-axis length along the second axis.
    pub b: u32,
    /// Encoded semi-axis length along the third axis.
    pub c: u32,
}

impl EllipsoidShape {
    /// A shape is valid when all three semi-axes are strictly positive.
    pub open spec fn is_valid(self) -> bool {
        encodes_positive(self.a) && encodes_positive(self.b) && encodes_positive(self.c)
    }

    /// The ellipsoid with the given encoded semi-axis lengths. Nothing is
    /// checked here; see [`Self::validate`].
    pub fn from_bits(a: u32, b: u32, c: u32) -> (r: Self)
        ensures
            r.a == a,
            r.b == b,
            r.c == c,
    {
        EllipsoidShape { a, b, c }
    }

    /// Whether all three semi-axes are strictly positive.
    pub fn validate(&self) -> (ok: bool)
        ensures
            ok == self.is_valid(),
    {
        is_positive_length(self.a) && is_positive_length(self.b) && is_positive_length(self.c)
    }
}

} // verus!
