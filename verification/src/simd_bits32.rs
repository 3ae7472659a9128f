//! The 32-bit bits vector.

use vstd::prelude::*;
use crate::bits::Bits;
use crate::simd_bits::SimdBits;
use crate::simd_mask::Mask;
use crate::Select;

verus! {

/// A vector of `u32` bit patterns over any number of lanes.
#[derive(Debug)]
pub struct SimdBits32 {
    /// The lanes.
    pub lanes: Vec<u32>,
}

impl SimdBits<u32> for SimdBits32 {
    type Mask = Mask;

    open spec fn lane_seq(self) -> Seq<u32> {
        self.lanes@
    }

    fn splat(value: u32, lanes: usize) -> (r: Self) {
        let mut v: Vec<u32> = Vec::new();
        let mut i: usize = 0;
        while i < lanes
            invariant
                i <= lanes,
                v@.len() == i,
                forall|j: int| 0 <= j < i ==> v@[j] == value,
            decreases lanes - i,
        {
            v.push(value);
            i = i + 1;
        }
        SimdBits32 { lanes: v }
    }

    fn len(&self) -> (r: usize) {
        self.lanes.len()
    }

    fn from_array(lanes: Vec<u32>) -> (r: Self) {
        SimdBits32 { lanes }
    }

    fn to_array(self) -> (r: Vec<u32>) {
        self.lanes
    }

    fn get(&self, lane: usize) -> (r: u32) {
        self.lanes[lane]
    }

    fn set(&mut self, lane: usize, value: u32) {
        self.lanes.set(lane, value);
    }

    fn simd_eq(&self, other: &Self) -> (r: Mask) {
        let n = self.lanes.len();
        let mut v: Vec<bool> = Vec::new();
        let mut i: usize = 0;
        while i < n
            invariant
                i <= n,
                n == self.lanes@.len(),
                n == other.lanes@.len(),
                v@.len() == i,
                forall|j: int| 0 <= j < i ==> v@[j] == (self.lanes@[j] == other.lanes@[j]),
            decreases n - i,
        {
            v.push(self.lanes[i] == other.lanes[i]);
            i = i + 1;
        }
        Mask { lanes: v }
    }

    fn simd_ne(&self, other: &Self) -> (r: Mask) {
        let n = self.lanes.len();
        let mut v: Vec<bool> = Vec::new();
        let mut i: usize = 0;
        while i < n
            invariant
                i <= n,
                n == self.lanes@.len(),
                n == other.lanes@.len(),
                v@.len() == i,
                forall|j: int| 0 <= j < i ==> v@[j] == (self.lanes@[j] != other.lanes@[j]),
            decreases n - i,
        {
            v.push(self.lanes[i] != other.lanes[i]);
            i = i + 1;
        }
        Mask { lanes: v }
    }

    fn simd_lt(&self, other: &Self) -> (r: Mask) {
        let n = self.lanes.len();
        let mut v: Vec<bool> = Vec::new();
        let mut i: usize = 0;
        while i < n
            invariant
                i <= n,
                n == self.lanes@.len(),
                n == other.lanes@.len(),
                v@.len() == i,
                forall|j: int| 0 <= j < i ==> v@[j] == (self.lanes@[j] < other.lanes@[j]),
            decreases n - i,
        {
            v.push(self.lanes[i] < other.lanes[i]);
            i = i + 1;
        }
        Mask { lanes: v }
    }

    fn simd_gt(&self, other: &Self) -> (r: Mask) {
        let n = self.lanes.len();
        let mut v: Vec<bool> = Vec::new();
        let mut i: usize = 0;
        while i < n
            invariant
                i <= n,
                n == self.lanes@.len(),
                n == other.lanes@.len(),
                v@.len() == i,
                forall|j: int| 0 <= j < i ==> v@[j] == (self.lanes@[j] > other.lanes@[j]),
            decreases n - i,
        {
            v.push(self.lanes[i] > other.lanes[i]);
            i = i + 1;
        }
        Mask { lanes: v }
    }

    fn simd_le(&self, other: &Self) -> (r: Mask) {
        let n = self.lanes.len();
        let mut v: Vec<bool> = Vec::new();
        let mut i: usize = 0;
        while i < n
            invariant
                i <= n,
                n == self.lanes@.len(),
                n == other.lanes@.len(),
                v@.len() == i,
                forall|j: int| 0 <= j < i ==> v@[j] == (self.lanes@[j] <= other.lanes@[j]),
            decreases n - i,
        {
            v.push(self.lanes[i] <= other.lanes[i]);
            i = i + 1;
        }
        Mask { lanes: v }
    }

    fn simd_ge(&self, other: &Self) -> (r: Mask) {
        let n = self.lanes.len();
        let mut v: Vec<bool> = Vec::new();
        let mut i: usize = 0;
        while i < n
            invariant
                i <= n,
                n == self.lanes@.len(),
                n == other.lanes@.len(),
                v@.len() == i,
                forall|j: int| 0 <= j < i ==> v@[j] == (self.lanes@[j] >= other.lanes@[j]),
            decreases n - i,
        {
            v.push(self.lanes[i] >= other.lanes[i]);
            i = i + 1;
        }
        Mask { lanes: v }
    }

    fn saturating_add(&self, other: &Self) -> (r: Self) {
        let n = self.lanes.len();
        let mut v: Vec<u32> = Vec::new();
        let mut i: usize = 0;
        while i < n
            invariant
                i <= n,
                n == self.lanes@.len(),
                n == other.lanes@.len(),
                v@.len() == i,
                forall|j: int|
                    0 <= j < i ==> v@[j] as int == (if self.lanes@[j] + other.lanes@[j]
                        <= u32::MAX {
                        self.lanes@[j] + other.lanes@[j]
                    } else {
                        u32::MAX as int
                    }),
            decreases n - i,
        {
            v.push(u32::saturating_add(self.lanes[i], other.lanes[i]));
            i = i + 1;
        }
        SimdBits32 { lanes: v }
    }

    fn saturating_sub(&self, other: &Self) -> (r: Self) {
        let n = self.lanes.len();
        let mut v: Vec<u32> = Vec::new();
        let mut i: usize = 0;
        while i < n
            invariant
                i <= n,
                n == self.lanes@.len(),
                n == other.lanes@.len(),
                v@.len() == i,
                forall|j: int|
                    0 <= j < i ==> v@[j] as int == (if self.lanes@[j] >= other.lanes@[j] {
                        self.lanes@[j] - other.lanes@[j]
                    } else {
                        0
                    }),
            decreases n - i,
        {
            v.push(u32::saturating_sub(self.lanes[i], other.lanes[i]));
            i = i + 1;
        }
        SimdBits32 { lanes: v }
    }

    fn abs_sub(&self, other: &Self) -> (r: Self) {
        let n = self.lanes.len();
        let mut v: Vec<u32> = Vec::new();
        let mut i: usize = 0;
        while i < n
            invariant
                i <= n,
                n == self.lanes@.len(),
                n == other.lanes@.len(),
                v@.len() == i,
                forall|j: int|
                    0 <= j < i ==> v@[j] as int == crate::bits::abs_diff_int(
                        self.lanes@[j] as int,
                        other.lanes@[j] as int,
                    ),
            decreases n - i,
        {
            v.push(Bits::abs_sub(self.lanes[i], other.lanes[i]));
            i = i + 1;
        }
        SimdBits32 { lanes: v }
    }
}

impl Select<Mask> for SimdBits32 {
    open spec fn select_req(mask: Mask, true_values: SimdBits32, false_values: SimdBits32) -> bool {
        mask.lanes@.len() == true_values.lanes@.len() && true_values.lanes@.len()
            == false_values.lanes@.len()
    }

    open spec fn select_ens(
        mask: Mask,
        true_values: SimdBits32,
        false_values: SimdBits32,
        r: SimdBits32,
    ) -> bool {
        r.lanes@.len() == mask.lanes@.len() && forall|i: int|
            0 <= i < r.lanes@.len() ==> r.lanes@[i] == (if mask.lanes@[i] {
                true_values.lanes@[i]
            } else {
                false_values.lanes@[i]
            })
    }

    fn select(mask: Mask, true_values: SimdBits32, false_values: SimdBits32) -> (r: SimdBits32) {
        let n = mask.lanes.len();
        let mut v: Vec<u32> = Vec::new();
        let mut i: usize = 0;
        while i < n
            invariant
                i <= n,
                n == mask.lanes@.len(),
                n == true_values.lanes@.len(),
                n == false_values.lanes@.len(),
                v@.len() == i,
                forall|j: int|
                    0 <= j < i ==> v@[j] == (if mask.lanes@[j] {
                        true_values.lanes@[j]
                    } else {
                        false_values.lanes@[j]
                    }),
            decreases n - i,
        {
            v.push(if mask.lanes[i] {
                true_values.lanes[i]
            } else {
                false_values.lanes[i]
            });
            i = i + 1;
        }
        SimdBits32 { lanes: v }
    }
}

} // verus!
