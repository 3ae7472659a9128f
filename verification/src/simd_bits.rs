//! Bit-pattern vectors: the lane-wise counterpart of [`Bits`].

use vstd::prelude::*;
use crate::bits::{abs_diff_int, Bits};
use crate::simd_mask::SimdMask;

verus! {

/// Bits representation vector: lanes of the unsigned integer of the
/// scalar width, with the lane-wise saturating arithmetic of [`Bits`].
pub trait SimdBits<B: Bits>: Sized {
    /// Associated mask vector.
    type Mask: SimdMask;

    /// The lanes.
    spec fn lane_seq(self) -> Seq<B>;

    /// Constructs a vector by setting all lanes to the given value.
    fn splat(value: B, lanes: usize) -> (r: Self)
        ensures
            r.lane_seq().len() == lanes,
            forall|i: int| 0 <= i < lanes ==> r.lane_seq()[i] == value,
    ;

    /// The number of lanes.
    fn len(&self) -> (r: usize)
        ensures
            r == self.lane_seq().len(),
    ;

    /// Converts a lane vector to a SIMD vector.
    fn from_array(lanes: Vec<B>) -> (r: Self)
        ensures
            r.lane_seq() == lanes@,
    ;

    /// Converts a SIMD vector to a lane vector.
    fn to_array(self) -> (r: Vec<B>)
        ensures
            r@ == self.lane_seq(),
    ;

    /// The value of the specified lane.
    fn get(&self, lane: usize) -> (r: B)
        requires
            lane < self.lane_seq().len(),
        ensures
            r == self.lane_seq()[lane as int],
    ;

    /// Sets the value of the specified lane.
    fn set(&mut self, lane: usize, value: B)
        requires
            lane < old(self).lane_seq().len(),
        ensures
            final(self).lane_seq() == old(self).lane_seq().update(lane as int, value),
    ;

    /// Tests if each lane equals the corresponding lane in `other`.
    fn simd_eq(&self, other: &Self) -> (r: Self::Mask)
        requires
            self.lane_seq().len() == other.lane_seq().len(),
        ensures
            r.mask_seq().len() == self.lane_seq().len(),
            forall|i: int|
                0 <= i < r.mask_seq().len() ==> r.mask_seq()[i] == (self.lane_seq()[i].as_int()
                    == other.lane_seq()[i].as_int()),
    ;

    /// Tests if each lane differs from the corresponding lane in `other`.
    fn simd_ne(&self, other: &Self) -> (r: Self::Mask)
        requires
            self.lane_seq().len() == other.lane_seq().len(),
        ensures
            r.mask_seq().len() == self.lane_seq().len(),
            forall|i: int|
                0 <= i < r.mask_seq().len() ==> r.mask_seq()[i] == (self.lane_seq()[i].as_int()
                    != other.lane_seq()[i].as_int()),
    ;

    /// Tests if each lane is less than the corresponding lane in `other`.
    fn simd_lt(&self, other: &Self) -> (r: Self::Mask)
        requires
            self.lane_seq().len() == other.lane_seq().len(),
        ensures
            r.mask_seq().len() == self.lane_seq().len(),
            forall|i: int|
                0 <= i < r.mask_seq().len() ==> r.mask_seq()[i] == (self.lane_seq()[i].as_int()
                    < other.lane_seq()[i].as_int()),
    ;

    /// Tests if each lane is greater than the corresponding lane in `other`.
    fn simd_gt(&self, other: &Self) -> (r: Self::Mask)
        requires
            self.lane_seq().len() == other.lane_seq().len(),
        ensures
            r.mask_seq().len() == self.lane_seq().len(),
            forall|i: int|
                0 <= i < r.mask_seq().len() ==> r.mask_seq()[i] == (self.lane_seq()[i].as_int()
                    > other.lane_seq()[i].as_int()),
    ;

    /// Tests if each lane is at most the corresponding lane in `other`.
    fn simd_le(&self, other: &Self) -> (r: Self::Mask)
        requires
            self.lane_seq().len() == other.lane_seq().len(),
        ensures
            r.mask_seq().len() == self.lane_seq().len(),
            forall|i: int|
                0 <= i < r.mask_seq().len() ==> r.mask_seq()[i] == (self.lane_seq()[i].as_int()
                    <= other.lane_seq()[i].as_int()),
    ;

    /// Tests if each lane is at least the corresponding lane in `other`.
    fn simd_ge(&self, other: &Self) -> (r: Self::Mask)
        requires
            self.lane_seq().len() == other.lane_seq().len(),
        ensures
            r.mask_seq().len() == self.lane_seq().len(),
            forall|i: int|
                0 <= i < r.mask_seq().len() ==> r.mask_seq()[i] == (self.lane_seq()[i].as_int()
                    >= other.lane_seq()[i].as_int()),
    ;

    /// Lane-wise saturating add.
    fn saturating_add(&self, other: &Self) -> (r: Self)
        requires
            self.lane_seq().len() == other.lane_seq().len(),
        ensures
            r.lane_seq().len() == self.lane_seq().len(),
            forall|i: int|
                0 <= i < r.lane_seq().len() ==> r.lane_seq()[i].as_int() == (
                if self.lane_seq()[i].as_int() + other.lane_seq()[i].as_int() <= B::max_int() {
                    self.lane_seq()[i].as_int() + other.lane_seq()[i].as_int()
                } else {
                    B::max_int()
                }),
    ;

    /// Lane-wise saturating subtract.
    fn saturating_sub(&self, other: &Self) -> (r: Self)
        requires
            self.lane_seq().len() == other.lane_seq().len(),
        ensures
            r.lane_seq().len() == self.lane_seq().len(),
            forall|i: int|
                0 <= i < r.lane_seq().len() ==> r.lane_seq()[i].as_int() == (
                if self.lane_seq()[i].as_int() >= other.lane_seq()[i].as_int() {
                    self.lane_seq()[i].as_int() - other.lane_seq()[i].as_int()
                } else {
                    0
                }),
    ;

    /// Lane-wise absolute subtract: the exact absolute difference of
    /// corresponding lanes.
    fn abs_sub(&self, other: &Self) -> (r: Self)
        requires
            self.lane_seq().len() == other.lane_seq().len(),
        ensures
            r.lane_seq().len() == self.lane_seq().len(),
            forall|i: int|
                0 <= i < r.lane_seq().len() ==> r.lane_seq()[i].as_int() == abs_diff_int(
                    self.lane_seq()[i].as_int(),
                    other.lane_seq()[i].as_int(),
                ),
    ;
}

} // verus!
