//! IEEE-754 values held by their bit patterns.
//!
//! The library moves measured quantities through its records without doing
//! arithmetic on them; it holds each as the bit pattern of the binary64 (or
//! binary32) value, and states the comparisons it makes on those patterns.
use vstd::prelude::*;

verus! {

/// Mask of everything but the sign bit of a binary64 value.
pub const MAGNITUDE_MASK_64: u64 = 0x7fff_ffff_ffff_ffffu64;

/// Mask of the exponent field of a binary64 value, in place.
pub const EXPONENT_MASK_64: u64 = 0x7ff0_0000_0000_0000u64;

/// Mask of the fraction field of a binary64 value.
pub const FRACTION_MASK_64: u64 = 0x000f_ffff_ffff_ffffu64;

/// A binary64 floating-point value, held by its bit pattern (what
/// `f64::to_bits` gives). `==` on this type compares bit patterns; the
/// comparisons of `f64` are `le`, `float_eq` and `is_zero`.
#[derive(Debug, Clone, Copy, PartialEq, Eq)]
pub struct Float64 {
    pub bits: u64,
}

/// A binary32 floating-point value, held by its bit pattern (what
/// `f32::to_bits` gives).
#[derive(Debug, Clone, Copy, PartialEq, Eq)]
pub struct Float32 {
    pub bits: u32,
}

/// The pattern is a NaN: all exponent bits set and a nonzero fraction.
pub open spec fn bits_is_nan(b: u64) -> bool {
    &&& b & EXPONENT_MASK_64 == EXPONENT_MASK_64
    &&& b & FRACTION_MASK_64 != 0
}

/// The magnitude of a pattern: the pattern without its sign bit.
pub open spec fn bits_magnitude(b: u64) -> int {
    (b & MAGNITUDE_MASK_64) as int
}

/// The sign bit is set.
pub open spec fn bits_negative(b: u64) -> bool {
    b & MAGNITUDE_MASK_64 != b
}

/// An integer that orders the non-NaN patterns as their values are ordered:
/// the magnitude, negated for a set sign bit. Both zeros map to 0.
pub open spec fn order_key(b: u64) -> int {
    if bits_negative(b) {
        -bits_magnitude(b)
    } else {
        bits_magnitude(b)
    }
}

impl Float64 {
    /// The value is a NaN.
    pub open spec fn spec_is_nan(self) -> bool {
        bits_is_nan(self.bits)
    }

    /// `self <= other` as IEEE-754 compares: false whenever one is a NaN.
    pub open spec fn spec_le(self, other: Float64) -> bool {
        !self.spec_is_nan() && !other.spec_is_nan() && order_key(self.bits) <= order_key(other.bits)
    }

    /// `self == other` as IEEE-754 compares: a NaN equals nothing, and the
    /// two zeros are equal.
    pub open spec fn spec_eq(self, other: Float64) -> bool {
        !self.spec_is_nan() && !other.spec_is_nan() && order_key(self.bits) == order_key(other.bits)
    }

    /// `self == 0.0`: the value is one of the two zeros.
    pub open spec fn spec_is_zero(self) -> bool {
        bits_magnitude(self.bits) == 0
    }

    /// The value whose bit pattern is `bits`.
    pub fn from_bits(bits: u64) -> (r: Float64)
        ensures
            r.bits == bits,
    {
        Float64 { bits }
    }

    /// The bit pattern of the value.
    pub fn to_bits(&self) -> (r: u64)
        ensures
            r == self.bits,
    {
        self.bits
    }

    /// Positive zero.
    pub fn zero() -> (r: Float64)
        ensures
            r.bits == 0,
            r.spec_is_zero(),
    {
        assert(0u64 & MAGNITUDE_MASK_64 == 0) by (bit_vector);
        Float64 { bits: 0 }
    }

    /// Whether the value is a NaN.
    pub fn is_nan(&self) -> (r: bool)
        ensures
            r == self.spec_is_nan(),
    {
        self.bits & EXPONENT_MASK_64 == EXPONENT_MASK_64 && self.bits & FRACTION_MASK_64 != 0
    }

    fn key(&self) -> (r: i128)
        ensures
            r == order_key(self.bits),
    {
        let magnitude = self.bits & MAGNITUDE_MASK_64;
        if magnitude != self.bits {
            -(magnitude as i128)
        } else {
            magnitude as i128
        }
    }

    /// `self <= other`, as `f64` compares.
    pub fn le(&self, other: &Float64) -> (r: bool)
        ensures
            r == self.spec_le(*other),
    {
        !self.is_nan() && !other.is_nan() && self.key() <= other.key()
    }

    /// `self == other`, as `f64` compares.
    pub fn float_eq(&self, other: &Float64) -> (r: bool)
        ensures
            r == self.spec_eq(*other),
    {
        !self.is_nan() && !other.is_nan() && self.key() == other.key()
    }

    /// `self == 0.0`, as `f64` compares.
    pub fn is_zero(&self) -> (r: bool)
        ensures
            r == self.spec_is_zero(),
    {
        self.bits & MAGNITUDE_MASK_64 == 0
    }
}

/// A zero is never a NaN, so `is_zero` agrees with an IEEE comparison to zero.
pub proof fn lemma_zero_test_is_comparison(x: Float64)
    ensures
        x.spec_is_zero() <==> x.spec_eq(Float64 { bits: 0 }),
{
    let b = x.bits;
    assert(b & MAGNITUDE_MASK_64 == 0 ==> !(b & EXPONENT_MASK_64 == EXPONENT_MASK_64 && b & FRACTION_MASK_64 != 0)) by (bit_vector);
    assert(0u64 & MAGNITUDE_MASK_64 == 0) by (bit_vector);
    assert(!(0u64 & EXPONENT_MASK_64 == EXPONENT_MASK_64 && 0u64 & FRACTION_MASK_64 != 0)) by (bit_vector);
    assert(0u64 & MAGNITUDE_MASK_64 == 0u64) by (bit_vector);
}

impl Float32 {
    /// The value whose bit pattern is `bits`.
    pub fn from_bits(bits: u32) -> (r: Float32)
        ensures
            r.bits == bits,
    {
        Float32 { bits }
    }

    /// The bit pattern of the value.
    pub fn to_bits(&self) -> (r: u32)
        ensures
            r == self.bits,
    {
        self.bits
    }
}

/// Among values that are not NaN, `<=` is a total order up to the equality of
/// the two zeros; a NaN is not `<=` anything, nor anything `<=` it.
pub proof fn lemma_le_orders_numbers(a: Float64, b: Float64, c: Float64)
    ensures
        !a.spec_is_nan() ==> a.spec_le(a),
        !a.spec_is_nan() && !b.spec_is_nan() ==> a.spec_le(b) || b.spec_le(a),
        a.spec_le(b) && b.spec_le(c) ==> a.spec_le(c),
        a.spec_le(b) && b.spec_le(a) ==> a.spec_eq(b),
        a.spec_is_nan() ==> !a.spec_le(b) && !b.spec_le(a) && !a.spec_eq(b),
{
}

} // verus!
