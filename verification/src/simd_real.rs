//! Real vectors: the lane-wise counterpart of [`Real`].

use vstd::prelude::*;
use crate::bits::Bits;
use crate::scalar::{approx_eq_real_sign_checked, clamp_real, max_real, min_real, Real};
use crate::simd_bits::SimdBits;
use crate::simd_mask::SimdMask;

verus! {

/// What a sequence of lane writes leaves in a target: the lanes are
/// written in order to their indices, so of two writes to one index the
/// later lane remains; an out-of-bounds index writes nothing.
pub open spec fn scatter_seq<R>(target: Seq<R>, lanes: Seq<R>, idxs: Seq<usize>) -> Seq<R>
    decreases lanes.len(),
{
    if lanes.len() == 0 {
        target
    } else {
        let prev = scatter_seq(target, lanes.drop_last(), idxs.drop_last());
        if (idxs.last() as int) < target.len() {
            prev.update(idxs.last() as int, lanes.last())
        } else {
            prev
        }
    }
}

/// As [`scatter_seq`], with a mask: a disabled lane writes nothing.
pub open spec fn scatter_select_seq<R>(
    target: Seq<R>,
    lanes: Seq<R>,
    idxs: Seq<usize>,
    enable: Seq<bool>,
) -> Seq<R>
    decreases lanes.len(),
{
    if lanes.len() == 0 {
        target
    } else {
        let prev = scatter_select_seq(
            target,
            lanes.drop_last(),
            idxs.drop_last(),
            enable.drop_last(),
        );
        if enable.last() && (idxs.last() as int) < target.len() {
            prev.update(idxs.last() as int, lanes.last())
        } else {
            prev
        }
    }
}

/// Lane `k` of the perfect interleaving of two lane sequences.
pub open spec fn interleave_lane<R>(a: Seq<R>, b: Seq<R>, k: int) -> R {
    if k % 2 == 0 {
        a[k / 2]
    } else {
        b[k / 2]
    }
}

/// Real number vector with associated bits and mask vectors.
///
/// Every operation is the scalar operation applied independently per
/// lane; no lane depends on another.
pub trait SimdReal<R: Real>: Sized {
    /// Associated bits representation vector.
    type Bits: SimdBits<<R as Real>::Bits>;

    /// Associated mask vector.
    type Mask: SimdMask;

    /// The lanes.
    spec fn lane_seq(self) -> Seq<R>;

    /// Constructs a vector by setting all lanes to the given value.
    fn splat(value: R, lanes: usize) -> (r: Self)
        ensures
            r.lane_seq().len() == lanes,
            forall|i: int| 0 <= i < lanes ==> r.lane_seq()[i] == value,
    ;

    /// The number of lanes.
    fn len(&self) -> (r: usize)
        ensures
            r == self.lane_seq().len(),
    ;

    /// Converts a lane vector to a SIMD vector.
    fn from_array(lanes: Vec<R>) -> (r: Self)
        ensures
            r.lane_seq() == lanes@,
    ;

    /// Converts a SIMD vector to a lane vector.
    fn to_array(self) -> (r: Vec<R>)
        ensures
            r@ == self.lane_seq(),
    ;

    /// Borrows the lane vector.
    fn as_array(&self) -> (r: &Vec<R>)
        ensures
            r@ == self.lane_seq(),
    ;

    /// Converts the leading lanes of a slice to a SIMD vector.
    fn from_slice(slice: &Vec<R>, lanes: usize) -> (r: Self)
        requires
            lanes <= slice@.len(),
        ensures
            r.lane_seq() == slice@.subrange(0, lanes as int),
    ;

    /// The value of the specified lane.
    fn get(&self, lane: usize) -> (r: R)
        requires
            lane < self.lane_seq().len(),
        ensures
            r == self.lane_seq()[lane as int],
    ;

    /// Inserts `value` at `lane`.
    fn insert(self, lane: usize, value: R) -> (r: Self)
        requires
            lane < self.lane_seq().len(),
        ensures
            r.lane_seq() == self.lane_seq().update(lane as int, value),
    ;

    /// Raw transmutation from an unsigned integer vector of the same
    /// width and number of lanes.
    fn from_bits(bits: Self::Bits) -> (r: Self)
        ensures
            r.lane_seq().len() == bits.lane_seq().len(),
            forall|i: int|
                0 <= i < r.lane_seq().len() ==> #[trigger] r.lane_seq()[i].to_bits_spec()
                    == bits.lane_seq()[i],
    ;

    /// Raw transmutation to an unsigned integer vector of the same width
    /// and number of lanes.
    fn to_bits(self) -> (r: Self::Bits)
        ensures
            r.lane_seq().len() == self.lane_seq().len(),
            forall|i: int|
                0 <= i < r.lane_seq().len() ==> #[trigger] r.lane_seq()[i]
                    == self.lane_seq()[i].to_bits_spec(),
    ;

    /// Tests lanes for IEEE-754 equality: false under a NaN, true of the
    /// two zeros.
    fn simd_eq(&self, other: &Self) -> (r: Self::Mask)
        requires
            self.lane_seq().len() == other.lane_seq().len(),
        ensures
            r.mask_seq().len() == self.lane_seq().len(),
            forall|i: int|
                0 <= i < r.mask_seq().len() ==> #[trigger] r.mask_seq()[i] == (
                !self.lane_seq()[i].is_nan_spec() && !other.lane_seq()[i].is_nan_spec()
                    && self.lane_seq()[i].key_spec() == other.lane_seq()[i].key_spec()),
    ;

    /// Tests lanes for IEEE-754 inequality: true under a NaN.
    fn simd_ne(&self, other: &Self) -> (r: Self::Mask)
        requires
            self.lane_seq().len() == other.lane_seq().len(),
        ensures
            r.mask_seq().len() == self.lane_seq().len(),
            forall|i: int|
                0 <= i < r.mask_seq().len() ==> #[trigger] r.mask_seq()[i] == !(
                !self.lane_seq()[i].is_nan_spec() && !other.lane_seq()[i].is_nan_spec()
                    && self.lane_seq()[i].key_spec() == other.lane_seq()[i].key_spec()),
    ;

    /// Tests lanes for IEEE-754 less-than.
    fn simd_lt(&self, other: &Self) -> (r: Self::Mask)
        requires
            self.lane_seq().len() == other.lane_seq().len(),
        ensures
            r.mask_seq().len() == self.lane_seq().len(),
            forall|i: int|
                0 <= i < r.mask_seq().len() ==> #[trigger] r.mask_seq()[i] == (
                !self.lane_seq()[i].is_nan_spec() && !other.lane_seq()[i].is_nan_spec()
                    && self.lane_seq()[i].key_spec() < other.lane_seq()[i].key_spec()),
    ;

    /// Tests lanes for IEEE-754 greater-than.
    fn simd_gt(&self, other: &Self) -> (r: Self::Mask)
        requires
            self.lane_seq().len() == other.lane_seq().len(),
        ensures
            r.mask_seq().len() == self.lane_seq().len(),
            forall|i: int|
                0 <= i < r.mask_seq().len() ==> #[trigger] r.mask_seq()[i] == (
                !self.lane_seq()[i].is_nan_spec() && !other.lane_seq()[i].is_nan_spec()
                    && self.lane_seq()[i].key_spec() > other.lane_seq()[i].key_spec()),
    ;

    /// Tests lanes for IEEE-754 less-than-or-equal.
    fn simd_le(&self, other: &Self) -> (r: Self::Mask)
        requires
            self.lane_seq().len() == other.lane_seq().len(),
        ensures
            r.mask_seq().len() == self.lane_seq().len(),
            forall|i: int|
                0 <= i < r.mask_seq().len() ==> #[trigger] r.mask_seq()[i] == (
                !self.lane_seq()[i].is_nan_spec() && !other.lane_seq()[i].is_nan_spec()
                    && self.lane_seq()[i].key_spec() <= other.lane_seq()[i].key_spec()),
    ;

    /// Tests lanes for IEEE-754 greater-than-or-equal.
    fn simd_ge(&self, other: &Self) -> (r: Self::Mask)
        requires
            self.lane_seq().len() == other.lane_seq().len(),
        ensures
            r.mask_seq().len() == self.lane_seq().len(),
            forall|i: int|
                0 <= i < r.mask_seq().len() ==> #[trigger] r.mask_seq()[i] == (
                !self.lane_seq()[i].is_nan_spec() && !other.lane_seq()[i].is_nan_spec()
                    && self.lane_seq()[i].key_spec() >= other.lane_seq()[i].key_spec()),
    ;

    /// True for each lane with a clear sign bit.
    fn is_sign_positive(&self) -> (r: Self::Mask)
        ensures
            r.mask_seq().len() == self.lane_seq().len(),
            forall|i: int|
                0 <= i < r.mask_seq().len() ==> #[trigger] r.mask_seq()[i]
                    == !self.lane_seq()[i].is_sign_negative_spec(),
    ;

    /// True for each lane with a set sign bit.
    fn is_sign_negative(&self) -> (r: Self::Mask)
        ensures
            r.mask_seq().len() == self.lane_seq().len(),
            forall|i: int|
                0 <= i < r.mask_seq().len() ==> #[trigger] r.mask_seq()[i]
                    == self.lane_seq()[i].is_sign_negative_spec(),
    ;

    /// True for each NaN lane.
    fn is_nan(&self) -> (r: Self::Mask)
        ensures
            r.mask_seq().len() == self.lane_seq().len(),
            forall|i: int|
                0 <= i < r.mask_seq().len() ==> #[trigger] r.mask_seq()[i]
                    == self.lane_seq()[i].is_nan_spec(),
    ;

    /// True for each infinite lane.
    fn is_infinite(&self) -> (r: Self::Mask)
        ensures
            r.mask_seq().len() == self.lane_seq().len(),
            forall|i: int|
                0 <= i < r.mask_seq().len() ==> #[trigger] r.mask_seq()[i]
                    == self.lane_seq()[i].is_infinite_spec(),
    ;

    /// True for each lane that is neither infinite nor NaN.
    fn is_finite(&self) -> (r: Self::Mask)
        ensures
            r.mask_seq().len() == self.lane_seq().len(),
            forall|i: int|
                0 <= i < r.mask_seq().len() ==> #[trigger] r.mask_seq()[i]
                    == self.lane_seq()[i].is_finite_spec(),
    ;

    /// True for each subnormal lane.
    fn is_subnormal(&self) -> (r: Self::Mask)
        ensures
            r.mask_seq().len() == self.lane_seq().len(),
            forall|i: int|
                0 <= i < r.mask_seq().len() ==> #[trigger] r.mask_seq()[i]
                    == self.lane_seq()[i].is_subnormal_spec(),
    ;

    /// True for each normal lane.
    fn is_normal(&self) -> (r: Self::Mask)
        ensures
            r.mask_seq().len() == self.lane_seq().len(),
            forall|i: int|
                0 <= i < r.mask_seq().len() ==> #[trigger] r.mask_seq()[i]
                    == self.lane_seq()[i].is_normal_spec(),
    ;

    /// The absolute value of every lane.
    fn abs(self) -> (r: Self)
        ensures
            r.lane_seq().len() == self.lane_seq().len(),
            forall|i: int|
                0 <= i < r.lane_seq().len() ==> #[trigger] r.lane_seq()[i]
                    == self.lane_seq()[i].abs_spec(),
    ;

    /// Every lane with its sign bit flipped.
    fn negate(self) -> (r: Self)
        ensures
            r.lane_seq().len() == self.lane_seq().len(),
            forall|i: int|
                0 <= i < r.lane_seq().len() ==> #[trigger] r.lane_seq()[i]
                    == self.lane_seq()[i].negate_spec(),
    ;

    /// The sign of every lane, as positive or negative one, or the
    /// canonical NaN.
    fn signum(self) -> (r: Self)
        ensures
            r.lane_seq().len() == self.lane_seq().len(),
            forall|i: int|
                0 <= i < r.lane_seq().len() ==> #[trigger] r.lane_seq()[i]
                    == self.lane_seq()[i].signum_spec(),
    ;

    /// Each lane with the magnitude of `self` and the sign of `sign`.
    fn copysign(&self, sign: &Self) -> (r: Self)
        requires
            self.lane_seq().len() == sign.lane_seq().len(),
        ensures
            r.lane_seq().len() == self.lane_seq().len(),
            forall|i: int|
                0 <= i < r.lane_seq().len() ==> #[trigger] r.lane_seq()[i]
                    == self.lane_seq()[i].copysign_spec(sign.lane_seq()[i]),
    ;

    /// The minimum of each lane pair; the other lane under a NaN.
    fn simd_min(&self, other: &Self) -> (r: Self)
        requires
            self.lane_seq().len() == other.lane_seq().len(),
        ensures
            r.lane_seq().len() == self.lane_seq().len(),
            forall|i: int|
                0 <= i < r.lane_seq().len() ==> #[trigger] r.lane_seq()[i] == min_real(
                    self.lane_seq()[i],
                    other.lane_seq()[i],
                ),
    ;

    /// The maximum of each lane pair; the other lane under a NaN.
    fn simd_max(&self, other: &Self) -> (r: Self)
        requires
            self.lane_seq().len() == other.lane_seq().len(),
        ensures
            r.lane_seq().len() == self.lane_seq().len(),
            forall|i: int|
                0 <= i < r.lane_seq().len() ==> #[trigger] r.lane_seq()[i] == max_real(
                    self.lane_seq()[i],
                    other.lane_seq()[i],
                ),
    ;

    /// Restricts each lane to an interval unless it is NaN.
    fn simd_clamp(&self, lo: &Self, hi: &Self) -> (r: Self)
        requires
            self.lane_seq().len() == lo.lane_seq().len(),
            self.lane_seq().len() == hi.lane_seq().len(),
            forall|i: int|
                0 <= i < self.lane_seq().len() ==> !(#[trigger] lo.lane_seq()[i]).is_nan_spec()
                    && !hi.lane_seq()[i].is_nan_spec() && lo.lane_seq()[i].key_spec()
                    <= hi.lane_seq()[i].key_spec(),
        ensures
            r.lane_seq().len() == self.lane_seq().len(),
            forall|i: int|
                0 <= i < r.lane_seq().len() ==> #[trigger] r.lane_seq()[i] == clamp_real(
                    self.lane_seq()[i],
                    lo.lane_seq()[i],
                    hi.lane_seq()[i],
                ),
    ;

    /// Negates the lanes whose lane mask is true.
    fn negate_where(&self, mask: &Self::Mask) -> (r: Self)
        requires
            self.lane_seq().len() == mask.mask_seq().len(),
        ensures
            r.lane_seq().len() == self.lane_seq().len(),
            forall|i: int|
                0 <= i < r.lane_seq().len() ==> #[trigger] r.lane_seq()[i] == (
                if mask.mask_seq()[i] {
                    self.lane_seq()[i].negate_spec()
                } else {
                    self.lane_seq()[i]
                }),
    ;

    /// Tests lanes for approximate equality wrt `epsilon` or `ulp`, "or"
    /// in the sense of `||`.
    ///
    /// `difference` carries the lane-wise rounded subtraction
    /// `self - other`, computed by the caller; the ULP path demands
    /// agreeing sign bits per lane.
    fn simd_approx_eq(
        &self,
        other: &Self,
        difference: &Self,
        epsilon: &Self,
        ulp: &Self::Bits,
    ) -> (r: Self::Mask)
        requires
            self.lane_seq().len() == other.lane_seq().len(),
            self.lane_seq().len() == difference.lane_seq().len(),
            self.lane_seq().len() == epsilon.lane_seq().len(),
            self.lane_seq().len() == ulp.lane_seq().len(),
        ensures
            r.mask_seq().len() == self.lane_seq().len(),
            forall|i: int|
                0 <= i < r.mask_seq().len() ==> #[trigger] r.mask_seq()[i]
                    == approx_eq_real_sign_checked(
                    self.lane_seq()[i],
                    other.lane_seq()[i],
                    difference.lane_seq()[i],
                    epsilon.lane_seq()[i],
                    ulp.lane_seq()[i],
                ),
    ;

    /// Tests lanes for approximate inequality wrt `epsilon` and `ulp`,
    /// "and" in the sense of `&&`.
    fn simd_approx_ne(
        &self,
        other: &Self,
        difference: &Self,
        epsilon: &Self,
        ulp: &Self::Bits,
    ) -> (r: Self::Mask)
        requires
            self.lane_seq().len() == other.lane_seq().len(),
            self.lane_seq().len() == difference.lane_seq().len(),
            self.lane_seq().len() == epsilon.lane_seq().len(),
            self.lane_seq().len() == ulp.lane_seq().len(),
        ensures
            r.mask_seq().len() == self.lane_seq().len(),
            forall|i: int|
                0 <= i < r.mask_seq().len() ==> #[trigger] r.mask_seq()[i]
                    == !approx_eq_real_sign_checked(
                    self.lane_seq()[i],
                    other.lane_seq()[i],
                    difference.lane_seq()[i],
                    epsilon.lane_seq()[i],
                    ulp.lane_seq()[i],
                ),
    ;

    /// The minimum lane: a lane of the vector, NaN only if every lane is
    /// NaN, and at most every non-NaN lane.
    fn reduce_min(&self) -> (r: R)
        requires
            self.lane_seq().len() >= 1,
        ensures
            exists|i: int| 0 <= i < self.lane_seq().len() && r == self.lane_seq()[i],
            forall|i: int|
                0 <= i < self.lane_seq().len() && !(#[trigger] self.lane_seq()[i]).is_nan_spec()
                    ==> !r.is_nan_spec() && r.key_spec() <= self.lane_seq()[i].key_spec(),
    ;

    /// The maximum lane: a lane of the vector, NaN only if every lane is
    /// NaN, and at least every non-NaN lane.
    fn reduce_max(&self) -> (r: R)
        requires
            self.lane_seq().len() >= 1,
        ensures
            exists|i: int| 0 <= i < self.lane_seq().len() && r == self.lane_seq()[i],
            forall|i: int|
                0 <= i < self.lane_seq().len() && !(#[trigger] self.lane_seq()[i]).is_nan_spec()
                    ==> !r.is_nan_spec() && r.key_spec() >= self.lane_seq()[i].key_spec(),
    ;

    /// Reverses the order of the lanes.
    fn reverse(self) -> (r: Self)
        ensures
            r.lane_seq().len() == self.lane_seq().len(),
            forall|i: int|
                0 <= i < r.lane_seq().len() ==> #[trigger] r.lane_seq()[i] == self.lane_seq()[
                    self.lane_seq().len() - 1 - i],
    ;

    /// Rotates the lanes so that lane `offset % len` becomes the first.
    fn rotate_lanes_left(self, offset: usize) -> (r: Self)
        requires
            self.lane_seq().len() >= 1,
        ensures
            r.lane_seq() == self.lane_seq().subrange(
                offset as int % self.lane_seq().len() as int,
                self.lane_seq().len() as int,
            ) + self.lane_seq().subrange(0, offset as int % self.lane_seq().len() as int),
    ;

    /// Rotates the lanes so that the first lane becomes lane
    /// `offset % len`.
    fn rotate_lanes_right(self, offset: usize) -> (r: Self)
        requires
            self.lane_seq().len() >= 1,
        ensures
            r.lane_seq() == self.lane_seq().subrange(
                self.lane_seq().len() - offset as int % self.lane_seq().len() as int,
                self.lane_seq().len() as int,
            ) + self.lane_seq().subrange(
                0,
                self.lane_seq().len() - offset as int % self.lane_seq().len() as int,
            ),
    ;

    /// Reads from potentially discontiguous indices in `slice` to
    /// construct a vector; an out-of-bounds index selects the `or` lane.
    fn gather_or(slice: &Vec<R>, idxs: &Vec<usize>, or: &Self) -> (r: Self)
        requires
            idxs@.len() == or.lane_seq().len(),
        ensures
            r.lane_seq().len() == or.lane_seq().len(),
            forall|i: int|
                0 <= i < r.lane_seq().len() ==> #[trigger] r.lane_seq()[i] == (
                if idxs@[i] < slice@.len() {
                    slice@[idxs@[i] as int]
                } else {
                    or.lane_seq()[i]
                }),
    ;

    /// Reads from potentially discontiguous indices in `slice` to
    /// construct a vector; an out-of-bounds index selects positive zero.
    fn gather_or_default(slice: &Vec<R>, idxs: &Vec<usize>) -> (r: Self)
        ensures
            r.lane_seq().len() == idxs@.len(),
            forall|i: int|
                0 <= i < r.lane_seq().len() ==> (idxs@[i] < slice@.len()
                    ==> #[trigger] r.lane_seq()[i] == slice@[idxs@[i] as int]),
            forall|i: int|
                0 <= i < r.lane_seq().len() ==> (idxs@[i] >= slice@.len() ==> (
                #[trigger] r.lane_seq()[i]).is_zero_spec() && !r.lane_seq()[
                    i].is_sign_negative_spec()),
    ;

    /// Reads from potentially discontiguous indices in `slice` to
    /// construct a vector; a disabled or out-of-bounds lane selects the
    /// `or` lane.
    fn gather_select(
        slice: &Vec<R>,
        enable: &Self::Mask,
        idxs: &Vec<usize>,
        or: &Self,
    ) -> (r: Self)
        requires
            idxs@.len() == or.lane_seq().len(),
            enable.mask_seq().len() == or.lane_seq().len(),
        ensures
            r.lane_seq().len() == or.lane_seq().len(),
            forall|i: int|
                0 <= i < r.lane_seq().len() ==> #[trigger] r.lane_seq()[i] == (
                if enable.mask_seq()[i] && idxs@[i] < slice@.len() {
                    slice@[idxs@[i] as int]
                } else {
                    or.lane_seq()[i]
                }),
    ;

    /// Writes the lanes to potentially discontiguous indices in `slice`,
    /// in lane order, so that of two lanes writing to one index the
    /// later one remains; an out-of-bounds index writes nothing.
    fn scatter(&self, slice: &mut Vec<R>, idxs: &Vec<usize>)
        requires
            idxs@.len() == self.lane_seq().len(),
        ensures
            final(slice)@ == scatter_seq(old(slice)@, self.lane_seq(), idxs@),
            final(slice)@.len() == old(slice)@.len(),
    ;

    /// As [`SimdReal::scatter`], with a mask: a disabled lane writes
    /// nothing.
    fn scatter_select(&self, slice: &mut Vec<R>, enable: &Self::Mask, idxs: &Vec<usize>)
        requires
            idxs@.len() == self.lane_seq().len(),
            enable.mask_seq().len() == self.lane_seq().len(),
        ensures
            final(slice)@ == scatter_select_seq(
                old(slice)@,
                self.lane_seq(),
                idxs@,
                enable.mask_seq(),
            ),
            final(slice)@.len() == old(slice)@.len(),
    ;

    /// Creates a new vector by copying the selected lanes of `self`.
    fn swizzle(&self, idxs: &Vec<usize>) -> (r: Self)
        requires
            forall|i: int| 0 <= i < idxs@.len() ==> #[trigger] idxs@[i] < self.lane_seq().len(),
        ensures
            r.lane_seq().len() == idxs@.len(),
            forall|i: int|
                0 <= i < r.lane_seq().len() ==> #[trigger] r.lane_seq()[i] == self.lane_seq()[
                    idxs@[i] as int],
    ;

    /// Creates a new vector by copying the selected lanes of `self` and
    /// `other`, the lanes of `other` counting on from those of `self`.
    fn concat_swizzle(&self, other: &Self, idxs: &Vec<usize>) -> (r: Self)
        requires
            forall|i: int|
                0 <= i < idxs@.len() ==> #[trigger] idxs@[i] < self.lane_seq().len()
                    + other.lane_seq().len(),
        ensures
            r.lane_seq().len() == idxs@.len(),
            forall|i: int|
                0 <= i < r.lane_seq().len() ==> #[trigger] r.lane_seq()[i] == (
                if idxs@[i] < self.lane_seq().len() {
                    self.lane_seq()[idxs@[i] as int]
                } else {
                    other.lane_seq()[idxs@[i] - self.lane_seq().len()]
                }),
    ;

    /// Interleaves two vectors.
    ///
    /// Produces two vectors with lanes taken alternately from `self` and
    /// `other`: the first holds the leading half of that interleaving,
    /// the second the trailing half.
    fn interleave(&self, other: &Self) -> (r: (Self, Self))
        requires
            self.lane_seq().len() == other.lane_seq().len(),
            self.lane_seq().len() <= usize::MAX / 2,
        ensures
            r.0.lane_seq().len() == self.lane_seq().len(),
            r.1.lane_seq().len() == self.lane_seq().len(),
            forall|i: int|
                0 <= i < self.lane_seq().len() ==> #[trigger] r.0.lane_seq()[i]
                    == interleave_lane(self.lane_seq(), other.lane_seq(), i),
            forall|i: int|
                0 <= i < self.lane_seq().len() ==> #[trigger] r.1.lane_seq()[i]
                    == interleave_lane(
                    self.lane_seq(),
                    other.lane_seq(),
                    self.lane_seq().len() + i,
                ),
    ;

    /// Deinterleaves two vectors: the first result takes every other
    /// lane of `self` and then `other` starting with the first, the
    /// second result the lanes between.
    fn deinterleave(&self, other: &Self) -> (r: (Self, Self))
        requires
            self.lane_seq().len() == other.lane_seq().len(),
            self.lane_seq().len() <= usize::MAX / 2,
        ensures
            r.0.lane_seq().len() == self.lane_seq().len(),
            r.1.lane_seq().len() == self.lane_seq().len(),
            forall|i: int|
                0 <= i < self.lane_seq().len() ==> #[trigger] r.0.lane_seq()[i] == (
                if 2 * i < self.lane_seq().len() {
                    self.lane_seq()[2 * i]
                } else {
                    other.lane_seq()[2 * i - self.lane_seq().len()]
                }),
            forall|i: int|
                0 <= i < self.lane_seq().len() ==> #[trigger] r.1.lane_seq()[i] == (
                if 2 * i + 1 < self.lane_seq().len() {
                    self.lane_seq()[2 * i + 1]
                } else {
                    other.lane_seq()[2 * i + 1 - self.lane_seq().len()]
                }),
    ;
}

} // verus!
