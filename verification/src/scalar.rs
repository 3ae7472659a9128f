//! Real scalars held as IEEE-754 bit patterns, with exact classification,
//! sign handling and ordering.

use vstd::prelude::*;
use crate::bits::Bits;

verus! {

/// The class of an IEEE-754 datum.
#[derive(Clone, Copy, PartialEq, Eq, Structural, Debug)]
pub enum Category {
    /// Not a number.
    Nan,
    /// Positive or negative infinity.
    Infinite,
    /// Positive or negative zero.
    Zero,
    /// A datum with zero exponent field and non-zero fraction.
    Subnormal,
    /// A finite, non-zero datum with full precision.
    Normal,
}

/// Real number of either interchange width, held as its raw bit pattern
/// with an associated [`Bits`] representation.
///
/// `key_spec` is the signed magnitude of the pattern: it orders all
/// non-NaN data exactly as IEEE-754 comparison does, with both zeros at
/// key zero. `total_key_spec` refines it to the total order over every
/// pattern, negative NaNs first and positive NaNs last.
pub trait Real: Sized + Copy {
    /// Associated bits representation.
    type Bits: Bits;

    /// The raw bit pattern.
    spec fn to_bits_spec(self) -> Self::Bits;

    /// True of a NaN pattern: exponent field all ones, non-zero fraction.
    spec fn is_nan_spec(self) -> bool;

    /// True of an infinity: exponent field all ones, zero fraction.
    spec fn is_infinite_spec(self) -> bool;

    /// True of every pattern that is neither an infinity nor a NaN.
    spec fn is_finite_spec(self) -> bool;

    /// True of positive and negative zero.
    spec fn is_zero_spec(self) -> bool;

    /// True of a subnormal: zero exponent field, non-zero fraction.
    spec fn is_subnormal_spec(self) -> bool;

    /// True of a normal datum: exponent field neither zero nor all ones.
    spec fn is_normal_spec(self) -> bool;

    /// The raw sign bit, which distinguishes negative zero from positive
    /// zero and reports the stored sign of a NaN.
    spec fn is_sign_negative_spec(self) -> bool;

    /// The comparison key: the magnitude bits, negated for patterns with
    /// the sign bit set.
    spec fn key_spec(self) -> int;

    /// The total-order key: as `key_spec`, with negative patterns shifted
    /// down one so that negative zero orders strictly below positive zero.
    spec fn total_key_spec(self) -> int;

    /// The class of the datum.
    spec fn classify_spec(self) -> Category;

    /// The same pattern with the sign bit cleared.
    spec fn abs_spec(self) -> Self;

    /// The same pattern with the sign bit flipped.
    spec fn negate_spec(self) -> Self;

    /// The magnitude of `self` with the sign bit of `sign`.
    spec fn copysign_spec(self, sign: Self) -> Self;

    /// Positive one, negative one, or the canonical NaN, after the sign
    /// of `self`.
    spec fn signum_spec(self) -> Self;

    /// Two values with one bit pattern are one value.
    proof fn lemma_to_bits_injective(self, other: Self)
        ensures
            self.to_bits_spec() == other.to_bits_spec() ==> self == other,
    ;

    /// Raw transmutation from the bits representation.
    fn from_bits(bits: Self::Bits) -> (r: Self)
        ensures
            r.to_bits_spec() == bits,
    ;

    /// Raw transmutation to the bits representation.
    fn to_bits(self) -> (r: Self::Bits)
        ensures
            r == self.to_bits_spec(),
    ;

    /// Returns true if this value is NaN.
    fn is_nan(&self) -> (r: bool)
        ensures
            r == self.is_nan_spec(),
    ;

    /// Returns true if this value is positive or negative infinity.
    fn is_infinite(&self) -> (r: bool)
        ensures
            r == self.is_infinite_spec(),
    ;

    /// Returns true if this value is neither infinite nor NaN.
    fn is_finite(&self) -> (r: bool)
        ensures
            r == self.is_finite_spec(),
    ;

    /// Returns true if this value is subnormal.
    fn is_subnormal(&self) -> (r: bool)
        ensures
            r == self.is_subnormal_spec(),
    ;

    /// Returns true if this value is neither zero, infinite, subnormal nor NaN.
    fn is_normal(&self) -> (r: bool)
        ensures
            r == self.is_normal_spec(),
    ;

    /// Returns true if this value has a clear sign bit, including positive
    /// zero, NaNs with positive sign bit and positive infinity.
    fn is_sign_positive(&self) -> (r: bool)
        ensures
            r == !self.is_sign_negative_spec(),
    ;

    /// Returns true if this value has a set sign bit, including negative
    /// zero, NaNs with negative sign bit and negative infinity.
    fn is_sign_negative(&self) -> (r: bool)
        ensures
            r == self.is_sign_negative_spec(),
    ;

    /// Returns the class of this value.
    fn classify(&self) -> (r: Category)
        ensures
            r == self.classify_spec(),
    ;

    /// Computes the absolute value: clears the sign bit and changes
    /// nothing else.
    fn abs(self) -> (r: Self)
        ensures
            r == self.abs_spec(),
    ;

    /// Negation: flips the sign bit and changes nothing else.
    fn negate(self) -> (r: Self)
        ensures
            r == self.negate_spec(),
    ;

    /// Returns the magnitude of `self` with the sign bit of `sign`.
    fn copysign(self, sign: Self) -> (r: Self)
        ensures
            r == self.copysign_spec(sign),
    ;

    /// Returns positive one for positive values, negative one for negative
    /// values, and the canonical NaN for NaNs.
    fn signum(self) -> (r: Self)
        ensures
            r == self.signum_spec(),
    ;

    /// IEEE-754 equality: false whenever an operand is NaN, true of the
    /// two zeros.
    fn eq_value(&self, other: &Self) -> (r: bool)
        ensures
            r == (!self.is_nan_spec() && !other.is_nan_spec() && self.key_spec()
                == other.key_spec()),
    ;

    /// IEEE-754 less-than.
    fn lt(&self, other: &Self) -> (r: bool)
        ensures
            r == (!self.is_nan_spec() && !other.is_nan_spec() && self.key_spec()
                < other.key_spec()),
    ;

    /// IEEE-754 less-than-or-equal.
    fn le(&self, other: &Self) -> (r: bool)
        ensures
            r == (!self.is_nan_spec() && !other.is_nan_spec() && self.key_spec()
                <= other.key_spec()),
    ;

    /// IEEE-754 greater-than.
    fn gt(&self, other: &Self) -> (r: bool)
        ensures
            r == (!self.is_nan_spec() && !other.is_nan_spec() && self.key_spec()
                > other.key_spec()),
    ;

    /// IEEE-754 greater-than-or-equal.
    fn ge(&self, other: &Self) -> (r: bool)
        ensures
            r == (!self.is_nan_spec() && !other.is_nan_spec() && self.key_spec()
                >= other.key_spec()),
    ;

    /// The IEEE-754 total order over all bit patterns, zeros and NaNs
    /// included.
    fn total_cmp(&self, other: &Self) -> (r: core::cmp::Ordering)
        ensures
            (r == core::cmp::Ordering::Less <==> self.total_key_spec()
                < other.total_key_spec()),
            (r == core::cmp::Ordering::Equal <==> self.total_key_spec()
                == other.total_key_spec()),
            (r == core::cmp::Ordering::Greater <==> self.total_key_spec()
                > other.total_key_spec()),
    ;

    /// The smaller of two values; the other value if one is NaN; the
    /// second operand when the two compare equal.
    fn min(self, other: Self) -> (r: Self)
        ensures
            r == (if self.is_nan_spec() {
                other
            } else if other.is_nan_spec() {
                self
            } else if self.key_spec() < other.key_spec() {
                self
            } else {
                other
            }),
    ;

    /// The larger of two values; the other value if one is NaN; the
    /// second operand when the two compare equal.
    fn max(self, other: Self) -> (r: Self)
        ensures
            r == (if self.is_nan_spec() {
                other
            } else if other.is_nan_spec() {
                self
            } else if self.key_spec() > other.key_spec() {
                self
            } else {
                other
            }),
    ;

    /// Restricts this value to an interval unless it is NaN.
    fn clamp(self, lo: Self, hi: Self) -> (r: Self)
        requires
            !lo.is_nan_spec(),
            !hi.is_nan_spec(),
            lo.key_spec() <= hi.key_spec(),
        ensures
            r == (if self.is_nan_spec() {
                self
            } else if self.key_spec() < lo.key_spec() {
                lo
            } else if self.key_spec() > hi.key_spec() {
                hi
            } else {
                self
            }),
    ;
}

/// The lane-wise minimum: the other lane under a NaN, the second lane of
/// an equal pair.
pub open spec fn min_real<R: Real>(a: R, b: R) -> R {
    if a.is_nan_spec() {
        b
    } else if b.is_nan_spec() {
        a
    } else if a.key_spec() < b.key_spec() {
        a
    } else {
        b
    }
}

/// The lane-wise maximum: the other lane under a NaN, the second lane of
/// an equal pair.
pub open spec fn max_real<R: Real>(a: R, b: R) -> R {
    if a.is_nan_spec() {
        b
    } else if b.is_nan_spec() {
        a
    } else if a.key_spec() > b.key_spec() {
        a
    } else {
        b
    }
}

/// A lane restricted to an interval unless it is NaN.
pub open spec fn clamp_real<R: Real>(x: R, lo: R, hi: R) -> R {
    if x.is_nan_spec() {
        x
    } else if x.key_spec() < lo.key_spec() {
        lo
    } else if x.key_spec() > hi.key_spec() {
        hi
    } else {
        x
    }
}

/// The distance of two values in representation steps: the absolute
/// difference of their bit patterns.
pub open spec fn ulp_distance_real<R: Real>(a: R, b: R) -> int {
    crate::bits::abs_diff_int(a.to_bits_spec().as_int(), b.to_bits_spec().as_int())
}

/// The absolute-tolerance test on a difference value: its magnitude is
/// at most `e` under IEEE-754 comparison, hence false whenever `d` or
/// `e` is NaN.
pub open spec fn eps_within_real<R: Real>(d: R, e: R) -> bool {
    !d.is_nan_spec() && !e.is_nan_spec() && d.abs_spec().key_spec() <= e.key_spec()
}

/// Approximate equality of `a` and `b` whose rounded difference is `d`:
/// within `e` absolutely, or within `ulp` representation steps with
/// neither operand NaN, the ULP path applying no gate between the
/// operands' signs.
pub open spec fn approx_eq_real<R: Real>(a: R, b: R, d: R, e: R, ulp: <R as Real>::Bits) -> bool {
    eps_within_real(d, e) || (!a.is_nan_spec() && !b.is_nan_spec() && ulp_distance_real(a, b)
        <= ulp.as_int())
}

/// As [`approx_eq_real`], with the ULP path additionally demanding that
/// the operands' sign bits agree.
pub open spec fn approx_eq_real_sign_checked<R: Real>(
    a: R,
    b: R,
    d: R,
    e: R,
    ulp: <R as Real>::Bits,
) -> bool {
    eps_within_real(d, e) || (!a.is_nan_spec() && !b.is_nan_spec() && a.is_sign_negative_spec()
        == b.is_sign_negative_spec() && ulp_distance_real(a, b) <= ulp.as_int())
}

} // verus!
