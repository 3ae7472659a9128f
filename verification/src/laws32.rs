//! The laws of the 32-bit approximate comparison, proved over the bit
//! model.
//!
//! Where a law speaks of the difference pattern `d`, its hypotheses state
//! what IEEE-754 arithmetic guarantees of the rounded subtraction that
//! produced it: the difference of a value with itself is zero, a NaN
//! operand yields a NaN difference, the two orders of subtraction agree
//! in magnitude, and distinct values never subtract to a zero.

use vstd::prelude::*;
use crate::simd_real32::SimdReal32;
use crate::ApproxEq;
use crate::real32::{
    approx_eq_bits, approx_eq_sign_checked_bits, eps_within, is_nan_bits, is_zero_bits, key_of,
    lemma_bits32, mag_of, sign_of, ulp_distance, Real32, SIGN32,
};

verus! {

/// Reflexivity: a non-NaN value approximates itself under any tolerances
/// and any difference pattern, through the ULP path alone.
pub proof fn lemma_approx_eq_reflexive(x: u32, d: u32, e: u32, ulp: u32)
    requires
        !is_nan_bits(x),
    ensures
        approx_eq_bits(x, x, d, e, ulp),
        approx_eq_sign_checked_bits(x, x, d, e, ulp),
{
}

/// NaN absorption: with a NaN operand, and hence a NaN difference, no
/// tolerances make the comparison succeed. With `a == b` this is the NaN
/// half of reflexivity.
pub proof fn lemma_approx_eq_nan(a: u32, b: u32, d: u32, e: u32, ulp: u32)
    requires
        is_nan_bits(a) || is_nan_bits(b),
        is_nan_bits(d),
    ensures
        !approx_eq_bits(a, b, d, e, ulp),
        !approx_eq_sign_checked_bits(a, b, d, e, ulp),
{
}

/// Symmetry: swapping the operands swaps the order of the subtraction
/// that feeds the absolute test, but IEEE-754 negation is exact, so the
/// two difference patterns agree in magnitude and NaN-ness, and the
/// comparison agrees.
pub proof fn lemma_approx_eq_symmetric(a: u32, b: u32, d: u32, d2: u32, e: u32, ulp: u32)
    requires
        is_nan_bits(d2) == is_nan_bits(d),
        mag_of(d2) == mag_of(d),
    ensures
        approx_eq_bits(a, b, d, e, ulp) == approx_eq_bits(b, a, d2, e, ulp),
        approx_eq_sign_checked_bits(a, b, d, e, ulp) == approx_eq_sign_checked_bits(
            b,
            a,
            d2,
            e,
            ulp,
        ),
{
}

/// Epsilon monotonicity: success is preserved under widening the
/// absolute tolerance to any non-NaN value at least as large.
pub proof fn lemma_approx_eq_epsilon_monotonic(a: u32, b: u32, d: u32, e1: u32, e2: u32, ulp: u32)
    requires
        !is_nan_bits(e2),
        key_of(e1) <= key_of(e2),
    ensures
        approx_eq_bits(a, b, d, e1, ulp) ==> approx_eq_bits(a, b, d, e2, ulp),
        approx_eq_sign_checked_bits(a, b, d, e1, ulp) ==> approx_eq_sign_checked_bits(
            a,
            b,
            d,
            e2,
            ulp,
        ),
{
}

/// ULP monotonicity: success is preserved under widening the distance
/// tolerance.
pub proof fn lemma_approx_eq_ulp_monotonic(a: u32, b: u32, d: u32, e: u32, u1: u32, u2: u32)
    requires
        u1 <= u2,
    ensures
        approx_eq_bits(a, b, d, e, u1) ==> approx_eq_bits(a, b, d, e, u2),
        approx_eq_sign_checked_bits(a, b, d, e, u1) ==> approx_eq_sign_checked_bits(
            a,
            b,
            d,
            e,
            u2,
        ),
{
}

/// Signed zero: the two zeros subtract to a zero, whose magnitude is
/// within every non-negative tolerance, so they compare approximately
/// equal under both sign gates even with both tolerances zero.
pub proof fn lemma_approx_eq_signed_zeros(d: u32, e: u32, ulp: u32)
    requires
        is_zero_bits(d),
        !is_nan_bits(e),
        !sign_of(e),
    ensures
        approx_eq_bits(0u32, SIGN32, d, e, ulp),
        approx_eq_sign_checked_bits(0u32, SIGN32, d, e, ulp),
{
    lemma_bits32(d);
    assert(eps_within(d, e));
}

/// Adjacent-representable rescue: two same-signed patterns one
/// representation step apart pass with a distance tolerance of one and a
/// zero absolute tolerance, and fail with both tolerances zero, their
/// difference being non-zero.
pub proof fn lemma_approx_eq_adjacent(a: u32, b: u32, d: u32)
    requires
        !is_nan_bits(a),
        !is_nan_bits(b),
        sign_of(a) == sign_of(b),
        ulp_distance(a, b) == 1,
        mag_of(d) != 0,
    ensures
        approx_eq_bits(a, b, d, 0u32, 1u32),
        approx_eq_sign_checked_bits(a, b, d, 0u32, 1u32),
        !approx_eq_bits(a, b, d, 0u32, 0u32),
        !approx_eq_sign_checked_bits(a, b, d, 0u32, 0u32),
{
}

/// Lane-wise equals scalar: over vectors built by repeating one scalar
/// in every lane, the all-lanes vector comparison agrees with the
/// sign-checked scalar comparison; and with the plain scalar comparison
/// wherever the operands' signs agree.
pub proof fn lemma_simd_approx_eq_splat(
    va: SimdReal32,
    vb: SimdReal32,
    vd: SimdReal32,
    a: Real32,
    b: Real32,
    d: Real32,
    e: Real32,
    ulp: u32,
)
    requires
        va.lanes@.len() >= 1,
        va.lanes@.len() == vb.lanes@.len(),
        va.lanes@.len() == vd.lanes@.len(),
        forall|i: int| 0 <= i < va.lanes@.len() ==> va.lanes@[i] == a,
        forall|i: int| 0 <= i < vb.lanes@.len() ==> vb.lanes@[i] == b,
        forall|i: int| 0 <= i < vd.lanes@.len() ==> vd.lanes@[i] == d,
    ensures
        va.approx_eq_spec(vb, vd, e, ulp) == approx_eq_sign_checked_bits(
            a.bits,
            b.bits,
            d.bits,
            e.bits,
            ulp,
        ),
        sign_of(a.bits) == sign_of(b.bits) ==> va.approx_eq_spec(vb, vd, e, ulp)
            == approx_eq_bits(a.bits, b.bits, d.bits, e.bits, ulp),
{
    assert(va.lanes@[0] == a && vb.lanes@[0] == b && vd.lanes@[0] == d);
}

/// The gated reading refines the plain one: whatever passes with the
/// sign gate passes without it, and over operands of one sign the two
/// agree.
pub proof fn lemma_approx_eq_sign_gate(a: u32, b: u32, d: u32, e: u32, ulp: u32)
    ensures
        approx_eq_sign_checked_bits(a, b, d, e, ulp) ==> approx_eq_bits(a, b, d, e, ulp),
        sign_of(a) == sign_of(b) ==> approx_eq_sign_checked_bits(a, b, d, e, ulp)
            == approx_eq_bits(a, b, d, e, ulp),
{
}

} // verus!
