//! The 32-bit real scalar: an IEEE-754 binary32 datum held as its raw
//! `u32` bit pattern.
//!
//! Field extraction, classification, ordering and the epsilon-or-ULP
//! approximate comparison are defined arithmetically over the pattern
//! (sign as the top bit, an 8-bit exponent field, a 23-bit fraction);
//! the executable code works with masks and shifts, and a pair of
//! bit-vector lemmas bridges the two readings.

use vstd::prelude::*;
use crate::bits::abs_diff_int;
use crate::scalar::{Category, Real};
use crate::ApproxEq;

verus! {

/// Mask of the sign bit.
pub const SIGN32: u32 = 0x8000_0000;

/// Mask of the exponent field.
pub const EXP32: u32 = 0x7F80_0000;

/// Mask of the fraction field.
pub const FRAC32: u32 = 0x007F_FFFF;

/// Mask of everything but the sign bit.
pub const MAG32: u32 = 0x7FFF_FFFF;

/// The pattern of positive one.
pub const ONE32: u32 = 0x3F80_0000;

/// The pattern of negative one.
pub const NEG_ONE32: u32 = 0xBF80_0000;

/// The canonical quiet NaN pattern.
pub const NAN32: u32 = 0x7FC0_0000;

/// The pattern of positive infinity.
pub const INFINITY32: u32 = 0x7F80_0000;

/// The pattern of negative infinity.
pub const NEG_INFINITY32: u32 = 0xFF80_0000;

/// True of patterns with the sign bit set.
pub open spec fn sign_of(b: u32) -> bool {
    b >= 0x8000_0000
}

/// The magnitude: the pattern with the sign bit cleared.
pub open spec fn mag_of(b: u32) -> u32 {
    b % 0x8000_0000
}

/// The exponent field, between 0 and 0xFF.
pub open spec fn exp_of(b: u32) -> u32 {
    b / 0x0080_0000 % 0x100
}

/// The fraction field, below 2^23.
pub open spec fn frac_of(b: u32) -> u32 {
    b % 0x0080_0000
}

/// A NaN: exponent field all ones, non-zero fraction.
pub open spec fn is_nan_bits(b: u32) -> bool {
    exp_of(b) == 0xFF && frac_of(b) != 0
}

/// An infinity: exponent field all ones, zero fraction.
pub open spec fn is_infinite_bits(b: u32) -> bool {
    exp_of(b) == 0xFF && frac_of(b) == 0
}

/// Finite: exponent field not all ones.
pub open spec fn is_finite_bits(b: u32) -> bool {
    exp_of(b) != 0xFF
}

/// Positive or negative zero.
pub open spec fn is_zero_bits(b: u32) -> bool {
    exp_of(b) == 0 && frac_of(b) == 0
}

/// Subnormal: zero exponent field, non-zero fraction.
pub open spec fn is_subnormal_bits(b: u32) -> bool {
    exp_of(b) == 0 && frac_of(b) != 0
}

/// Normal: exponent field neither zero nor all ones.
pub open spec fn is_normal_bits(b: u32) -> bool {
    exp_of(b) != 0 && exp_of(b) != 0xFF
}

/// The comparison key: magnitude, negated under a set sign bit. Over
/// non-NaN patterns it orders exactly as IEEE-754 comparison does, and
/// it sends both zeros to zero.
pub open spec fn key_of(b: u32) -> int {
    if sign_of(b) {
        -(mag_of(b) as int)
    } else {
        mag_of(b) as int
    }
}

/// The total-order key: as `key_of`, with negative patterns shifted down
/// one so that negative zero orders strictly below positive zero.
pub open spec fn total_key_of(b: u32) -> int {
    if sign_of(b) {
        -(mag_of(b) as int) - 1
    } else {
        mag_of(b) as int
    }
}

/// The pattern with the sign bit cleared.
pub open spec fn abs_of(b: u32) -> u32 {
    mag_of(b)
}

/// The pattern with the sign bit flipped.
pub open spec fn negate_of(b: u32) -> u32 {
    if sign_of(b) {
        (b - 0x8000_0000) as u32
    } else {
        (b + 0x8000_0000) as u32
    }
}

/// The magnitude of `x` under the sign bit of `y`.
pub open spec fn copysign_of(x: u32, y: u32) -> u32 {
    if sign_of(y) {
        (mag_of(x) + 0x8000_0000) as u32
    } else {
        mag_of(x)
    }
}

/// One with the sign of `b`, or the canonical NaN.
pub open spec fn signum_of(b: u32) -> u32 {
    if is_nan_bits(b) {
        NAN32
    } else if sign_of(b) {
        NEG_ONE32
    } else {
        ONE32
    }
}

/// The class of the pattern.
pub open spec fn classify_bits(b: u32) -> Category {
    if is_nan_bits(b) {
        Category::Nan
    } else if is_infinite_bits(b) {
        Category::Infinite
    } else if is_zero_bits(b) {
        Category::Zero
    } else if is_subnormal_bits(b) {
        Category::Subnormal
    } else {
        Category::Normal
    }
}

/// The distance of two patterns in representation steps: the absolute
/// difference of the raw bit patterns as integers.
pub open spec fn ulp_distance(x: u32, y: u32) -> int {
    abs_diff_int(x as int, y as int)
}

/// The absolute-tolerance test: the magnitude of the difference pattern
/// `d` is at most `e` under IEEE-754 comparison, hence false whenever
/// `d` or `e` is NaN.
pub open spec fn eps_within(d: u32, e: u32) -> bool {
    !is_nan_bits(d) && !is_nan_bits(e) && mag_of(d) <= key_of(e)
}

/// Approximate equality of the patterns `a` and `b` whose rounded
/// difference has pattern `d`: within `e` absolutely, or within `ulp`
/// representation steps with neither operand NaN. The ULP path applies
/// no gate between the operands' signs; see
/// [`approx_eq_sign_checked_bits`] for the gated reading.
pub open spec fn approx_eq_bits(a: u32, b: u32, d: u32, e: u32, ulp: u32) -> bool {
    eps_within(d, e) || (!is_nan_bits(a) && !is_nan_bits(b) && ulp_distance(a, b) <= ulp)
}

/// As [`approx_eq_bits`], with the ULP path additionally demanding that
/// the two operands' sign bits agree.
pub open spec fn approx_eq_sign_checked_bits(a: u32, b: u32, d: u32, e: u32, ulp: u32) -> bool {
    eps_within(d, e) || (!is_nan_bits(a) && !is_nan_bits(b) && sign_of(a) == sign_of(b)
        && ulp_distance(a, b) <= ulp)
}

/// Bridges the mask-and-shift reading of a pattern to the arithmetic
/// field extraction.
pub proof fn lemma_bits32(b: u32)
    by (bit_vector)
    ensures
        b & 0x7FFF_FFFF == b % 0x8000_0000,
        b & 0x007F_FFFF == b % 0x0080_0000,
        (b >> 23) & 0xFF == b / 0x0080_0000 % 0x100,
        (b & 0x8000_0000 == 0) <==> b < 0x8000_0000,
        b ^ 0x8000_0000 == (if b < 0x8000_0000 {
            b + 0x8000_0000
        } else {
            b - 0x8000_0000
        }),
        b % 0x8000_0000 / 0x0080_0000 % 0x100 == b
            / 0x0080_0000 % 0x100,
        b % 0x8000_0000 % 0x0080_0000 == b % 0x0080_0000,
        b % 0x8000_0000 < 0x8000_0000,
        (b / 0x0080_0000 % 0x100 == 0 && b % 0x0080_0000 == 0) <==> b
            % 0x8000_0000 == 0,
{
}

/// Bridges the mask-and-or composition of a copied sign to arithmetic.
pub proof fn lemma_copysign_bits32(x: u32, y: u32)
    by (bit_vector)
    ensures
        (x & 0x7FFF_FFFF) | (y & 0x8000_0000) == x % 0x8000_0000
            + (if y >= 0x8000_0000 {
            0x8000_0000u32
        } else {
            0u32
        }),
{
}

/// An IEEE-754 binary32 datum, as its raw bit pattern.
///
/// The derived equality is bit-pattern identity: it tells the two zeros
/// apart and holds between equal NaN patterns. Value equality in the
/// IEEE-754 sense is [`Real::eq_value`].
#[derive(Clone, Copy, PartialEq, Eq, Structural, Debug)]
pub struct Real32 {
    /// The raw bit pattern.
    pub bits: u32,
}

impl Real32 {
    /// Positive zero.
    pub fn zero() -> (r: Self)
        ensures
            r.bits == 0u32,
            is_zero_bits(r.bits),
            !sign_of(r.bits),
    {
        Real32 { bits: 0 }
    }

    /// Negative zero.
    pub fn neg_zero() -> (r: Self)
        ensures
            r.bits == SIGN32,
            is_zero_bits(r.bits),
            sign_of(r.bits),
    {
        Real32 { bits: SIGN32 }
    }

    /// Positive one.
    pub fn one() -> (r: Self)
        ensures
            r.bits == ONE32,
            is_normal_bits(r.bits),
            !sign_of(r.bits),
    {
        Real32 { bits: ONE32 }
    }

    /// Negative one.
    pub fn neg_one() -> (r: Self)
        ensures
            r.bits == NEG_ONE32,
            is_normal_bits(r.bits),
            sign_of(r.bits),
    {
        Real32 { bits: NEG_ONE32 }
    }

    /// The canonical quiet NaN.
    pub fn nan() -> (r: Self)
        ensures
            r.bits == NAN32,
            is_nan_bits(r.bits),
    {
        Real32 { bits: NAN32 }
    }

    /// Positive infinity.
    pub fn infinity() -> (r: Self)
        ensures
            r.bits == INFINITY32,
            is_infinite_bits(r.bits),
            !sign_of(r.bits),
    {
        Real32 { bits: INFINITY32 }
    }

    /// Negative infinity.
    pub fn neg_infinity() -> (r: Self)
        ensures
            r.bits == NEG_INFINITY32,
            is_infinite_bits(r.bits),
            sign_of(r.bits),
    {
        Real32 { bits: NEG_INFINITY32 }
    }

    /// The largest finite value.
    pub fn max_finite() -> (r: Self)
        ensures
            r.bits == 0x7F7F_FFFFu32,
            is_normal_bits(r.bits),
            !sign_of(r.bits),
    {
        Real32 { bits: 0x7F7F_FFFF }
    }

    /// The smallest positive normal value.
    pub fn min_positive() -> (r: Self)
        ensures
            r.bits == 0x0080_0000u32,
            is_normal_bits(r.bits),
            !sign_of(r.bits),
    {
        Real32 { bits: 0x0080_0000 }
    }

    /// The machine epsilon, 2^-23.
    pub fn epsilon() -> (r: Self)
        ensures
            r.bits == 0x3400_0000u32,
            is_normal_bits(r.bits),
            !sign_of(r.bits),
    {
        Real32 { bits: 0x3400_0000 }
    }

    /// Tests for approximate equality with the ULP path gated on
    /// agreeing sign bits, so that a pair of opposite-signed patterns
    /// can only pass through the absolute tolerance.
    pub fn approx_eq_sign_checked(
        &self,
        other: &Self,
        difference: &Self,
        epsilon: &Self,
        ulp: &u32,
    ) -> (r: bool)
        ensures
            r == approx_eq_sign_checked_bits(
                self.bits,
                other.bits,
                difference.bits,
                epsilon.bits,
                *ulp,
            ),
    {
        proof {
            lemma_bits32(difference.bits);
        }
        let abs_diff = Real32 { bits: difference.bits & MAG32 };
        let eps_ok = abs_diff.le(epsilon);
        let sign_ok = self.is_sign_negative() == other.is_sign_negative();
        let dist = crate::bits::Bits::abs_sub(self.bits, other.bits);
        eps_ok || (!self.is_nan() && !other.is_nan() && sign_ok && dist <= *ulp)
    }

    /// The negation of [`Real32::approx_eq_sign_checked`].
    pub fn approx_ne_sign_checked(
        &self,
        other: &Self,
        difference: &Self,
        epsilon: &Self,
        ulp: &u32,
    ) -> (r: bool)
        ensures
            r == !approx_eq_sign_checked_bits(
                self.bits,
                other.bits,
                difference.bits,
                epsilon.bits,
                *ulp,
            ),
    {
        !self.approx_eq_sign_checked(other, difference, epsilon, ulp)
    }
}

impl Real for Real32 {
    type Bits = u32;

    open spec fn to_bits_spec(self) -> u32 {
        self.bits
    }

    open spec fn is_nan_spec(self) -> bool {
        is_nan_bits(self.bits)
    }

    open spec fn is_infinite_spec(self) -> bool {
        is_infinite_bits(self.bits)
    }

    open spec fn is_finite_spec(self) -> bool {
        is_finite_bits(self.bits)
    }

    open spec fn is_zero_spec(self) -> bool {
        is_zero_bits(self.bits)
    }

    open spec fn is_subnormal_spec(self) -> bool {
        is_subnormal_bits(self.bits)
    }

    open spec fn is_normal_spec(self) -> bool {
        is_normal_bits(self.bits)
    }

    open spec fn is_sign_negative_spec(self) -> bool {
        sign_of(self.bits)
    }

    open spec fn key_spec(self) -> int {
        key_of(self.bits)
    }

    open spec fn total_key_spec(self) -> int {
        total_key_of(self.bits)
    }

    open spec fn classify_spec(self) -> Category {
        classify_bits(self.bits)
    }

    open spec fn abs_spec(self) -> Self {
        Real32 { bits: abs_of(self.bits) }
    }

    open spec fn negate_spec(self) -> Self {
        Real32 { bits: negate_of(self.bits) }
    }

    open spec fn copysign_spec(self, sign: Self) -> Self {
        Real32 { bits: copysign_of(self.bits, sign.bits) }
    }

    open spec fn signum_spec(self) -> Self {
        Real32 { bits: signum_of(self.bits) }
    }

    proof fn lemma_to_bits_injective(self, other: Self) {
    }

    fn from_bits(bits: u32) -> (r: Self) {
        Real32 { bits }
    }

    fn to_bits(self) -> (r: u32) {
        self.bits
    }

    fn is_nan(&self) -> (r: bool) {
        proof {
            lemma_bits32(self.bits);
        }
        (self.bits >> 23) & 0xFF == 0xFF && self.bits & FRAC32 != 0
    }

    fn is_infinite(&self) -> (r: bool) {
        proof {
            lemma_bits32(self.bits);
        }
        (self.bits >> 23) & 0xFF == 0xFF && self.bits & FRAC32 == 0
    }

    fn is_finite(&self) -> (r: bool) {
        proof {
            lemma_bits32(self.bits);
        }
        (self.bits >> 23) & 0xFF != 0xFF
    }

    fn is_subnormal(&self) -> (r: bool) {
        proof {
            lemma_bits32(self.bits);
        }
        (self.bits >> 23) & 0xFF == 0 && self.bits & FRAC32 != 0
    }

    fn is_normal(&self) -> (r: bool) {
        proof {
            lemma_bits32(self.bits);
        }
        let e = (self.bits >> 23) & 0xFF;
        e != 0 && e != 0xFF
    }

    fn is_sign_positive(&self) -> (r: bool) {
        self.bits < SIGN32
    }

    fn is_sign_negative(&self) -> (r: bool) {
        self.bits >= SIGN32
    }

    fn classify(&self) -> (r: Category) {
        proof {
            lemma_bits32(self.bits);
        }
        let e = (self.bits >> 23) & 0xFF;
        let f = self.bits & FRAC32;
        if e == 0xFF {
            if f != 0 {
                Category::Nan
            } else {
                Category::Infinite
            }
        } else if e == 0 {
            if f == 0 {
                Category::Zero
            } else {
                Category::Subnormal
            }
        } else {
            Category::Normal
        }
    }

    fn abs(self) -> (r: Self) {
        proof {
            lemma_bits32(self.bits);
        }
        Real32 { bits: self.bits & MAG32 }
    }

    fn negate(self) -> (r: Self) {
        proof {
            lemma_bits32(self.bits);
        }
        Real32 { bits: self.bits ^ SIGN32 }
    }

    fn copysign(self, sign: Self) -> (r: Self) {
        proof {
            lemma_bits32(self.bits);
            lemma_copysign_bits32(self.bits, sign.bits);
        }
        Real32 { bits: (self.bits & MAG32) | (sign.bits & SIGN32) }
    }

    fn signum(self) -> (r: Self) {
        if self.is_nan() {
            Real32 { bits: NAN32 }
        } else if self.is_sign_negative() {
            Real32 { bits: NEG_ONE32 }
        } else {
            Real32 { bits: ONE32 }
        }
    }

    fn eq_value(&self, other: &Self) -> (r: bool) {
        proof {
            lemma_bits32(self.bits);
            lemma_bits32(other.bits);
        }
        if self.is_nan() || other.is_nan() {
            false
        } else {
            let sx = self.bits >= SIGN32;
            let sy = other.bits >= SIGN32;
            let mx = self.bits & MAG32;
            let my = other.bits & MAG32;
            if sx == sy {
                mx == my
            } else {
                mx == 0 && my == 0
            }
        }
    }

    fn lt(&self, other: &Self) -> (r: bool) {
        proof {
            lemma_bits32(self.bits);
            lemma_bits32(other.bits);
        }
        if self.is_nan() || other.is_nan() {
            false
        } else {
            let sx = self.bits >= SIGN32;
            let sy = other.bits >= SIGN32;
            let mx = self.bits & MAG32;
            let my = other.bits & MAG32;
            if sx == sy {
                if sx {
                    my < mx
                } else {
                    mx < my
                }
            } else if sx {
                mx != 0 || my != 0
            } else {
                false
            }
        }
    }

    fn le(&self, other: &Self) -> (r: bool) {
        proof {
            lemma_bits32(self.bits);
            lemma_bits32(other.bits);
        }
        if self.is_nan() || other.is_nan() {
            false
        } else {
            let sx = self.bits >= SIGN32;
            let sy = other.bits >= SIGN32;
            let mx = self.bits & MAG32;
            let my = other.bits & MAG32;
            if sx == sy {
                if sx {
                    my <= mx
                } else {
                    mx <= my
                }
            } else if sx {
                true
            } else {
                mx == 0 && my == 0
            }
        }
    }

    fn gt(&self, other: &Self) -> (r: bool) {
        other.lt(self)
    }

    fn ge(&self, other: &Self) -> (r: bool) {
        other.le(self)
    }

    fn total_cmp(&self, other: &Self) -> (r: core::cmp::Ordering) {
        proof {
            lemma_bits32(self.bits);
            lemma_bits32(other.bits);
        }
        let sx = self.bits >= SIGN32;
        let sy = other.bits >= SIGN32;
        let mx = self.bits & MAG32;
        let my = other.bits & MAG32;
        if sx == sy {
            let (lo, hi) = if sx {
                (my, mx)
            } else {
                (mx, my)
            };
            if lo < hi {
                core::cmp::Ordering::Less
            } else if lo == hi {
                core::cmp::Ordering::Equal
            } else {
                core::cmp::Ordering::Greater
            }
        } else if sx {
            core::cmp::Ordering::Less
        } else {
            core::cmp::Ordering::Greater
        }
    }

    fn min(self, other: Self) -> (r: Self) {
        if self.is_nan() {
            other
        } else if other.is_nan() {
            self
        } else if self.lt(&other) {
            self
        } else {
            other
        }
    }

    fn max(self, other: Self) -> (r: Self) {
        if self.is_nan() {
            other
        } else if other.is_nan() {
            self
        } else if self.gt(&other) {
            self
        } else {
            other
        }
    }

    fn clamp(self, lo: Self, hi: Self) -> (r: Self) {
        if self.is_nan() {
            self
        } else if self.lt(&lo) {
            lo
        } else if self.gt(&hi) {
            hi
        } else {
            self
        }
    }
}

impl ApproxEq for Real32 {
    type Tol = Real32;

    type Dist = u32;

    open spec fn approx_eq_spec(
        self,
        other: Self,
        difference: Self,
        epsilon: Self,
        ulp: u32,
    ) -> bool {
        approx_eq_bits(self.bits, other.bits, difference.bits, epsilon.bits, ulp)
    }

    fn approx_eq(
        &self,
        other: &Self,
        difference: &Self,
        epsilon: &Self,
        ulp: &u32,
    ) -> (r: bool) {
        proof {
            lemma_bits32(difference.bits);
        }
        let abs_diff = Real32 { bits: difference.bits & MAG32 };
        let eps_ok = abs_diff.le(epsilon);
        let dist = crate::bits::Bits::abs_sub(self.bits, other.bits);
        eps_ok || (!self.is_nan() && !other.is_nan() && dist <= *ulp)
    }

    fn approx_ne(
        &self,
        other: &Self,
        difference: &Self,
        epsilon: &Self,
        ulp: &u32,
    ) -> (r: bool) {
        !self.approx_eq(other, difference, epsilon, ulp)
    }
}

} // verus!
