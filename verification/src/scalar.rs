//! Single-precision numbers, held by their IEEE 754 bit patterns.
//!
//! Classification and comparison are decided on the bits and proved here.
//! Rounded arithmetic is computed by the `softfloat` crate; the contracts
//! name each of its results and claim nothing more about them.

use softfloat::F32;
use vstd::prelude::*;

verus! {

/// The bit pattern that `softfloat::F32::add` returns for the operands with
/// the bit patterns `a` and `b`.
pub uninterp spec fn ieee_add(a: u32, b: u32) -> u32;

/// The bit pattern of the single-precision number to which
/// `softfloat::F32::from_f64` narrows what `softfloat::F64::mul` returns for
/// the operands with the bit patterns `a` and `b`, each widened by
/// `softfloat::F32::to_f64`.
pub uninterp spec fn ieee_mul(a: u32, b: u32) -> u32;

/// The bit pattern that `softfloat::F32::div` returns for the dividend with
/// the bit pattern `a` and the divisor with the bit pattern `b`.
pub uninterp spec fn ieee_div(a: u32, b: u32) -> u32;

/// The bit pattern that `softfloat::F32::sqrt` returns for the operand with
/// the bit pattern `a`.
pub uninterp spec fn ieee_sqrt(a: u32) -> u32;

/// The bit pattern that `softfloat::F32::from_u32` returns for the integer `n`.
pub uninterp spec fn ieee_from_u32(n: u32) -> u32;

/// Calls `softfloat::F32::add` on the two bit patterns. The sum is a
/// function of the operands' bits alone; the contract gives it its name.
#[verifier::external_body]
fn add_bits(a: u32, b: u32) -> (r: u32)
    ensures
        r == ieee_add(a, b),
{
    F32::from_bits(a).add(F32::from_bits(b)).to_bits()
}

/// Calls `softfloat::F64::mul` on the two operands, widened to double
/// precision, and narrows the product back. In double precision the product
/// of two single-precision numbers is exact, so that the narrowing is the
/// only rounding. The product is a function of the operands' bits alone;
/// the contract gives it its name.
#[verifier::external_body]
fn mul_bits(a: u32, b: u32) -> (r: u32)
    ensures
        r == ieee_mul(a, b),
{
    F32::from_f64(F32::from_bits(a).to_f64().mul(F32::from_bits(b).to_f64())).to_bits()
}

/// Calls `softfloat::F32::div` on the two bit patterns. The quotient is a
/// function of the operands' bits alone; the contract gives it its name.
#[verifier::external_body]
fn div_bits(a: u32, b: u32) -> (r: u32)
    ensures
        r == ieee_div(a, b),
{
    F32::from_bits(a).div(F32::from_bits(b)).to_bits()
}

/// Calls `softfloat::F32::sqrt` on the bit pattern. The root is a function
/// of the operand's bits alone; the contract gives it its name.
#[verifier::external_body]
fn sqrt_bits(a: u32) -> (r: u32)
    ensures
        r == ieee_sqrt(a),
{
    F32::from_bits(a).sqrt().to_bits()
}

/// Calls `softfloat::F32::from_u32`. The nearest single-precision number is
/// a function of the integer alone; the contract gives it its name.
#[verifier::external_body]
fn from_u32_bits(n: u32) -> (r: u32)
    ensures
        r == ieee_from_u32(n),
{
    F32::from_u32(n).to_bits()
}

/// The sign bit of a single-precision bit pattern.
pub const SIGN_BIT: u32 = 0x8000_0000;

/// The bit pattern of positive infinity; every larger magnitude is a NaN.
pub const INFINITY_BITS: u32 = 0x7f80_0000;

/// A single-precision IEEE 754 number.
///
/// `==` on scalars compares bit patterns. The numeric comparisons, under
/// which a NaN is unordered and the two zeros are equal, are
/// [`Scalar::less_than`], [`Scalar::greater_than`] and [`Scalar::equal_to`].
#[derive(Clone, Copy, Debug, PartialEq, Eq, Structural)]
pub struct Scalar {
    pub bits: u32,
}

impl Scalar {
    /// The bits without the sign.
    pub open spec fn magnitude(self) -> u32 {
        if self.bits >= SIGN_BIT {
            (self.bits - SIGN_BIT) as u32
        } else {
            self.bits
        }
    }

    pub open spec fn is_negative(self) -> bool {
        self.bits >= SIGN_BIT
    }

    pub open spec fn spec_is_nan(self) -> bool {
        self.magnitude() > INFINITY_BITS
    }

    pub open spec fn spec_is_finite(self) -> bool {
        self.magnitude() < INFINITY_BITS
    }

    pub open spec fn spec_is_zero(self) -> bool {
        self.magnitude() == 0
    }

    /// The place of a number that is not a NaN on the number line: bit
    /// patterns of one sign are ordered as their magnitudes are, and the two
    /// zeros share the place 0.
    pub open spec fn rank(self) -> int {
        if self.is_negative() {
            -(self.magnitude() as int)
        } else {
            self.magnitude() as int
        }
    }

    pub open spec fn spec_less_than(self, other: Scalar) -> bool {
        !self.spec_is_nan() && !other.spec_is_nan() && self.rank() < other.rank()
    }

    pub open spec fn spec_greater_than(self, other: Scalar) -> bool {
        other.spec_less_than(self)
    }

    pub open spec fn spec_equal_to(self, other: Scalar) -> bool {
        !self.spec_is_nan() && !other.spec_is_nan() && self.rank() == other.rank()
    }

    pub open spec fn spec_is_positive(self) -> bool {
        Scalar { bits: 0 }.spec_less_than(self)
    }

    pub open spec fn spec_neg(self) -> Scalar {
        Scalar {
            bits: if self.bits >= SIGN_BIT {
                (self.bits - SIGN_BIT) as u32
            } else {
                (self.bits + SIGN_BIT) as u32
            },
        }
    }

    pub open spec fn spec_add(self, other: Scalar) -> Scalar {
        Scalar { bits: ieee_add(self.bits, other.bits) }
    }

    /// Subtraction is the addition of the negated operand.
    pub open spec fn spec_sub(self, other: Scalar) -> Scalar {
        self.spec_add(other.spec_neg())
    }

    pub open spec fn spec_mul(self, other: Scalar) -> Scalar {
        Scalar { bits: ieee_mul(self.bits, other.bits) }
    }

    pub open spec fn spec_div(self, other: Scalar) -> Scalar {
        Scalar { bits: ieee_div(self.bits, other.bits) }
    }

    pub open spec fn spec_sqrt(self) -> Scalar {
        Scalar { bits: ieee_sqrt(self.bits) }
    }

    pub open spec fn spec_from_u32(n: u32) -> Scalar {
        Scalar { bits: ieee_from_u32(n) }
    }

    pub open spec fn spec_zero() -> Scalar {
        Scalar { bits: 0 }
    }

    /// The scalar with the given bit pattern.
    pub fn from_bits(bits: u32) -> (r: Scalar)
        ensures
            r.bits == bits,
    {
        Scalar { bits }
    }

    /// The bit pattern of the scalar.
    pub fn to_bits(self) -> (r: u32)
        ensures
            r == self.bits,
    {
        self.bits
    }

    /// Positive zero.
    #[verifier::when_used_as_spec(spec_zero)]
    pub fn zero() -> (r: Scalar)
        ensures
            r == Scalar::spec_zero(),
    {
        Scalar { bits: 0 }
    }

    /// The single-precision number nearest to `n`.
    #[verifier::when_used_as_spec(spec_from_u32)]
    pub fn from_u32(n: u32) -> (r: Scalar)
        ensures
            r == Scalar::spec_from_u32(n),
    {
        Scalar { bits: from_u32_bits(n) }
    }

    fn abs_bits(self) -> (r: u32)
        ensures
            r == self.magnitude(),
    {
        if self.bits >= SIGN_BIT {
            self.bits - SIGN_BIT
        } else {
            self.bits
        }
    }

    /// Whether the scalar is a NaN.
    #[verifier::when_used_as_spec(spec_is_nan)]
    pub fn is_nan(self) -> (r: bool)
        ensures
            r == self.spec_is_nan(),
    {
        self.abs_bits() > INFINITY_BITS
    }

    /// Whether the scalar is neither an infinity nor a NaN.
    #[verifier::when_used_as_spec(spec_is_finite)]
    pub fn is_finite(self) -> (r: bool)
        ensures
            r == self.spec_is_finite(),
    {
        self.abs_bits() < INFINITY_BITS
    }

    /// Whether the scalar is one of the two zeros.
    #[verifier::when_used_as_spec(spec_is_zero)]
    pub fn is_zero(self) -> (r: bool)
        ensures
            r == self.spec_is_zero(),
    {
        self.abs_bits() == 0
    }

    /// Whether the scalar is numerically below `other`. False when either
    /// is a NaN.
    #[verifier::when_used_as_spec(spec_less_than)]
    pub fn less_than(self, other: Scalar) -> (r: bool)
        ensures
            r == self.spec_less_than(other),
    {
        if self.is_nan() || other.is_nan() {
            return false;
        }
        let a: u32 = self.abs_bits();
        let b: u32 = other.abs_bits();
        if self.bits >= SIGN_BIT {
            if other.bits >= SIGN_BIT {
                b < a
            } else {
                a != 0 || b != 0
            }
        } else {
            if other.bits >= SIGN_BIT {
                false
            } else {
                a < b
            }
        }
    }

    /// Whether the scalar is numerically above `other`. False when either
    /// is a NaN.
    #[verifier::when_used_as_spec(spec_greater_than)]
    pub fn greater_than(self, other: Scalar) -> (r: bool)
        ensures
            r == self.spec_greater_than(other),
    {
        other.less_than(self)
    }

    /// Whether the two scalars are numerically equal. False when either is
    /// a NaN; true of a positive and a negative zero.
    #[verifier::when_used_as_spec(spec_equal_to)]
    pub fn equal_to(self, other: Scalar) -> (r: bool)
        ensures
            r == self.spec_equal_to(other),
    {
        if self.is_nan() || other.is_nan() {
            return false;
        }
        let a: u32 = self.abs_bits();
        let b: u32 = other.abs_bits();
        if a == 0 && b == 0 {
            true
        } else {
            self.bits == other.bits
        }
    }

    /// Whether the scalar is numerically above zero. False of a NaN.
    #[verifier::when_used_as_spec(spec_is_positive)]
    pub fn is_positive(self) -> (r: bool)
        ensures
            r == self.spec_is_positive(),
    {
        Scalar::zero().less_than(self)
    }

    /// The scalar with its sign flipped.
    #[verifier::when_used_as_spec(spec_neg)]
    pub fn neg(self) -> (r: Scalar)
        ensures
            r == self.spec_neg(),
    {
        if self.bits >= SIGN_BIT {
            Scalar { bits: self.bits - SIGN_BIT }
        } else {
            Scalar { bits: self.bits + SIGN_BIT }
        }
    }

    /// The rounded sum.
    #[verifier::when_used_as_spec(spec_add)]
    pub fn add(self, other: Scalar) -> (r: Scalar)
        ensures
            r == self.spec_add(other),
    {
        Scalar { bits: add_bits(self.bits, other.bits) }
    }

    /// The rounded difference.
    #[verifier::when_used_as_spec(spec_sub)]
    pub fn sub(self, other: Scalar) -> (r: Scalar)
        ensures
            r == self.spec_sub(other),
    {
        self.add(other.neg())
    }

    /// The rounded product.
    #[verifier::when_used_as_spec(spec_mul)]
    pub fn mul(self, other: Scalar) -> (r: Scalar)
        ensures
            r == self.spec_mul(other),
    {
        Scalar { bits: mul_bits(self.bits, other.bits) }
    }

    /// The rounded quotient.
    #[verifier::when_used_as_spec(spec_div)]
    pub fn div(self, other: Scalar) -> (r: Scalar)
        ensures
            r == self.spec_div(other),
    {
        Scalar { bits: div_bits(self.bits, other.bits) }
    }

    /// The rounded square root.
    #[verifier::when_used_as_spec(spec_sqrt)]
    pub fn sqrt(self) -> (r: Scalar)
        ensures
            r == self.spec_sqrt(),
    {
        Scalar { bits: sqrt_bits(self.bits) }
    }
}

/// The numeric order of the scalars that are not NaNs is a strict total
/// order up to numeric equality: of two such scalars exactly one of
/// "below", "equal" and "above" holds.
pub proof fn law_comparison_trichotomy(a: Scalar, b: Scalar)
    requires
        !a.is_nan(),
        !b.is_nan(),
    ensures
        a.less_than(b) || a.equal_to(b) || a.greater_than(b),
        !(a.less_than(b) && a.equal_to(b)),
        !(a.less_than(b) && a.greater_than(b)),
        !(a.equal_to(b) && a.greater_than(b)),
{
}

/// A NaN is neither below, equal to, nor above any scalar.
pub proof fn law_nan_is_unordered(a: Scalar, b: Scalar)
    requires
        a.is_nan() || b.is_nan(),
    ensures
        !a.less_than(b),
        !a.equal_to(b),
        !a.greater_than(b),
{
}

} // verus!
