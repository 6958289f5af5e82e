use vstd::prelude::*;

verus! {

// An IEEE-754 binary64 value, carried by its bit pattern. The layout is:
// bit 63 the sign, bits 62..52 the biased exponent, bits 51..0 the fraction.
// Classification and ordering of such values are pure functions of the bits,
// which lets every comparison the library makes be specified and verified
// exactly, without any floating-point arithmetic.

/// Bit pattern of positive zero.
pub const POSITIVE_ZERO_BITS: u64 = 0x0000_0000_0000_0000;
/// Bit pattern of negative zero.
pub const NEGATIVE_ZERO_BITS: u64 = 0x8000_0000_0000_0000;
/// Bit pattern of one.
pub const ONE_BITS: u64 = 0x3FF0_0000_0000_0000;
/// Bit pattern of the absolute tolerance 1e-12, the single
/// approximate-comparison knob of the library.
pub const TOLERANCE_BITS: u64 = 0x3D71_9799_812D_EA11;

/// The sign bit: 0 for non-negative values, 1 for negative ones.
pub open spec fn sign_field(bits: u64) -> u64 {
    bits >> 63
}

/// The biased exponent field (11 bits).
pub open spec fn exponent_field(bits: u64) -> u64 {
    (bits >> 52) & 0x7FF
}

/// The fraction field (52 bits).
pub open spec fn fraction_field(bits: u64) -> u64 {
    bits & 0x000F_FFFF_FFFF_FFFF
}

/// The bits with the sign cleared: the bit pattern of the absolute value.
pub open spec fn magnitude_bits(bits: u64) -> u64 {
    bits & 0x7FFF_FFFF_FFFF_FFFF
}

/// A not-a-number: exponent field all ones and a non-zero fraction.
pub open spec fn is_nan_bits(bits: u64) -> bool {
    exponent_field(bits) == 0x7FF && fraction_field(bits) != 0
}

/// Positive or negative infinity: exponent field all ones and a zero fraction.
pub open spec fn is_infinite_bits(bits: u64) -> bool {
    exponent_field(bits) == 0x7FF && fraction_field(bits) == 0
}

/// A finite value: anything that is neither an infinity nor a not-a-number.
pub open spec fn is_finite_bits(bits: u64) -> bool {
    exponent_field(bits) != 0x7FF
}

/// Positive or negative zero.
pub open spec fn is_zero_bits(bits: u64) -> bool {
    magnitude_bits(bits) == 0
}

/// The strict order of binary64 values: false whenever either side is a
/// not-a-number; the two zeros are equal; otherwise negative values sort
/// below non-negative ones and same-signed values sort by magnitude, with
/// the magnitude order reversed on the negative side.
pub open spec fn lt_bits(a: u64, b: u64) -> bool {
    &&& !is_nan_bits(a)
    &&& !is_nan_bits(b)
    &&& if sign_field(a) == 1 && sign_field(b) == 1 {
            magnitude_bits(b) < magnitude_bits(a)
        } else if sign_field(a) == 1 && sign_field(b) == 0 {
            !(is_zero_bits(a) && is_zero_bits(b))
        } else if sign_field(a) == 0 && sign_field(b) == 1 {
            false
        } else {
            magnitude_bits(a) < magnitude_bits(b)
        }
}

/// Equality of binary64 values: false whenever either side is a
/// not-a-number; positive and negative zero are equal.
pub open spec fn eq_bits(a: u64, b: u64) -> bool {
    &&& !is_nan_bits(a)
    &&& !is_nan_bits(b)
    &&& (a == b || (is_zero_bits(a) && is_zero_bits(b)))
}

pub open spec fn le_bits(a: u64, b: u64) -> bool {
    lt_bits(a, b) || eq_bits(a, b)
}

pub open spec fn gt_bits(a: u64, b: u64) -> bool {
    lt_bits(b, a)
}

pub open spec fn ge_bits(a: u64, b: u64) -> bool {
    le_bits(b, a)
}

/// Strictly negative: below zero in the order above (so neither a
/// not-a-number nor negative zero counts as negative).
pub open spec fn is_negative_bits(bits: u64) -> bool {
    lt_bits(bits, POSITIVE_ZERO_BITS)
}

/// Within the absolute tolerance of zero. For every value, including the
/// special ones, this is the comparison of the magnitude against the
/// tolerance's bit pattern: magnitudes of finite values order exactly as
/// their bit patterns do, and the special values lie above every finite one.
pub open spec fn is_approximately_zero_bits(bits: u64) -> bool {
    magnitude_bits(bits) <= TOLERANCE_BITS
}

/// The sign field is a single bit.
pub proof fn lemma_sign_field_is_boolean(bits: u64)
    ensures
        sign_field(bits) == 0 || sign_field(bits) == 1,
{
    assert(bits >> 63 == 0 || bits >> 63 == 1) by (bit_vector);
}

/// An IEEE-754 binary64 value, held as its bit pattern.
///
/// The library never performs binary64 arithmetic; it classifies, orders
/// and transports such values. Callers produce and consume the bit
/// patterns at the boundary.
#[derive(Clone, Copy, Debug, PartialEq, Eq, Structural)]
pub struct Scalar {
    bits: u64,
}

impl View for Scalar {
    type V = u64;

    closed spec fn view(&self) -> u64 {
        self.bits
    }
}

impl Scalar {
    /// Positive zero.
    pub fn zero() -> (r: Scalar)
        ensures
            r@ == POSITIVE_ZERO_BITS,
    {
        Scalar { bits: POSITIVE_ZERO_BITS }
    }

    pub fn from_bits(bits: u64) -> (r: Scalar)
        ensures
            r@ == bits,
    {
        Scalar { bits }
    }

    pub fn bits(self) -> (r: u64)
        ensures
            r == self@,
    {
        self.bits
    }

    pub fn is_nan(self) -> (r: bool)
        ensures
            r == is_nan_bits(self@),
    {
        ((self.bits >> 52) & 0x7FF) == 0x7FF && (self.bits & 0x000F_FFFF_FFFF_FFFF) != 0
    }

    pub fn is_infinite(self) -> (r: bool)
        ensures
            r == is_infinite_bits(self@),
    {
        ((self.bits >> 52) & 0x7FF) == 0x7FF && (self.bits & 0x000F_FFFF_FFFF_FFFF) == 0
    }

    pub fn is_finite(self) -> (r: bool)
        ensures
            r == is_finite_bits(self@),
    {
        ((self.bits >> 52) & 0x7FF) != 0x7FF
    }

    pub fn is_zero(self) -> (r: bool)
        ensures
            r == is_zero_bits(self@),
    {
        (self.bits & 0x7FFF_FFFF_FFFF_FFFF) == 0
    }

    /// The bit pattern of the absolute value.
    pub fn magnitude(self) -> (r: u64)
        ensures
            r == magnitude_bits(self@),
    {
        self.bits & 0x7FFF_FFFF_FFFF_FFFF
    }

    /// Whether the sign bit is set; true for negative zero and for
    /// not-a-numbers with a set sign bit as well.
    pub fn is_sign_negative(self) -> (r: bool)
        ensures
            r == (sign_field(self@) == 1),
    {
        (self.bits >> 63) == 1
    }

    /// The strict binary64 order; false whenever either side is a
    /// not-a-number.
    pub fn lt(self, other: Scalar) -> (r: bool)
        ensures
            r == lt_bits(self@, other@),
    {
        proof {
            lemma_sign_field_is_boolean(self@);
            lemma_sign_field_is_boolean(other@);
        }
        if self.is_nan() || other.is_nan() {
            false
        } else {
            let self_negative = self.is_sign_negative();
            let other_negative = other.is_sign_negative();
            if self_negative && other_negative {
                other.magnitude() < self.magnitude()
            } else if self_negative && !other_negative {
                !(self.is_zero() && other.is_zero())
            } else if !self_negative && other_negative {
                false
            } else {
                self.magnitude() < other.magnitude()
            }
        }
    }

    /// Binary64 equality; false whenever either side is a not-a-number,
    /// and true on the pair of zeros.
    pub fn eq_value(self, other: Scalar) -> (r: bool)
        ensures
            r == eq_bits(self@, other@),
    {
        if self.is_nan() || other.is_nan() {
            false
        } else {
            self.bits == other.bits || (self.is_zero() && other.is_zero())
        }
    }

    pub fn le(self, other: Scalar) -> (r: bool)
        ensures
            r == le_bits(self@, other@),
    {
        self.lt(other) || self.eq_value(other)
    }

    pub fn gt(self, other: Scalar) -> (r: bool)
        ensures
            r == gt_bits(self@, other@),
    {
        other.lt(self)
    }

    pub fn ge(self, other: Scalar) -> (r: bool)
        ensures
            r == ge_bits(self@, other@),
    {
        other.le(self)
    }

    /// Strictly below zero; negative zero does not count.
    pub fn is_negative(self) -> (r: bool)
        ensures
            r == is_negative_bits(self@),
    {
        self.lt(Scalar::from_bits(POSITIVE_ZERO_BITS))
    }

    /// Within the absolute tolerance of zero.
    pub fn is_approximately_zero(self) -> (r: bool)
        ensures
            r == is_approximately_zero_bits(self@),
    {
        self.magnitude() <= TOLERANCE_BITS
    }
}

} // verus!
