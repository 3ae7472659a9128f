//! Lane-associated vector abstractions over IEEE-754 binary interchange
//! formats, carried out on the bit level.
//!
//! Scalars are held as their raw bit patterns ([`real32::Real32`] wraps a
//! `u32`, [`real64::Real64`] a `u64`), so classification, sign handling,
//! ordering and the epsilon-or-ULP approximate comparison are all exact
//! integer logic. The one operation that needs floating-point hardware,
//! the rounded subtraction producing the difference of two values, is
//! taken as an argument: callers compute it with their native arithmetic
//! and hand in its bit pattern.
//!
//! The [`laws32`] and [`laws64`] modules state what holds of the
//! comparison — reflexivity short of NaN, symmetry, monotonicity in both
//! tolerances, the treatment of the two zeros and of adjacent
//! representable values, and the agreement of the lane-wise comparison
//! with the scalar one — and prove it.

use vstd::prelude::*;

pub mod bits;
pub mod scalar;
pub mod real64;
pub mod laws64;
pub mod real32;
pub mod laws32;
pub mod simd_mask;
pub mod simd_bits;
pub mod simd_bits64;
pub mod simd_bits32;
pub mod simd_real;
pub mod simd_real64;
pub mod simd_real32;

verus! {

/// Selects lanes from two vectors by a mask vector.
pub trait Select<M>: Sized {
    /// When the three operands' lanes line up.
    spec fn select_req(mask: M, true_values: Self, false_values: Self) -> bool;

    /// What lane selection returns: each lane of `r` is the corresponding
    /// lane of `true_values` where the mask lane is true, of
    /// `false_values` where it is false.
    spec fn select_ens(mask: M, true_values: Self, false_values: Self, r: Self) -> bool;

    /// Selects lanes from two vectors by a mask vector.
    ///
    /// For each lane in the mask, chooses the corresponding lane from
    /// `true_values` if that lane mask is true, and `false_values` otherwise.
    fn select(mask: M, true_values: Self, false_values: Self) -> (r: Self)
        requires
            Self::select_req(mask, true_values, false_values),
        ensures
            Self::select_ens(mask, true_values, false_values, r),
    ;
}

/// Tests for approximate equality.
///
/// `difference` carries the rounded subtraction `self - other` of the two
/// compared values, computed by the caller; the comparison against
/// `epsilon` and the unit-in-the-last-place distance of the raw bit
/// patterns are exact.
pub trait ApproxEq: Sized {
    /// The absolute tolerance, a scalar of the compared width.
    type Tol;

    /// The distance tolerance in representation steps, an unsigned integer
    /// (or integer vector) of the compared width.
    type Dist;

    /// What the approximate-equality test returns.
    spec fn approx_eq_spec(
        self,
        other: Self,
        difference: Self,
        epsilon: Self::Tol,
        ulp: Self::Dist,
    ) -> bool;

    /// Tests for approximate equality wrt `epsilon` or `ulp`, "or" in the sense of `||`.
    fn approx_eq(
        &self,
        other: &Self,
        difference: &Self,
        epsilon: &Self::Tol,
        ulp: &Self::Dist,
    ) -> (r: bool)
        ensures
            r == self.approx_eq_spec(*other, *difference, *epsilon, *ulp),
    ;

    /// Tests for approximate inequality wrt `epsilon` and `ulp`, "and" in the sense of `&&`.
    fn approx_ne(
        &self,
        other: &Self,
        difference: &Self,
        epsilon: &Self::Tol,
        ulp: &Self::Dist,
    ) -> (r: bool)
        ensures
            r == !self.approx_eq_spec(*other, *difference, *epsilon, *ulp),
    ;
}

} // verus!
