//! The 32-bit real vector.

use vstd::prelude::*;
use crate::real32::{approx_eq_sign_checked_bits, lemma_bits32, Real32};
use crate::scalar::{approx_eq_real_sign_checked, clamp_real, max_real, min_real, Real};
use crate::simd_bits32::SimdBits32;
use crate::simd_mask::Mask;
use crate::simd_real::{
    interleave_lane, scatter_select_seq, scatter_seq, SimdReal,
};
use crate::{ApproxEq, Select};

verus! {

/// A vector of 32-bit real scalars over any number of lanes.
#[derive(Debug)]
pub struct SimdReal32 {
    /// The lanes.
    pub lanes: Vec<Real32>,
}

/// The generic reading of the sign-checked approximate comparison
/// coincides with the 32-bit one.
pub proof fn lemma_approx_real_bridge32(a: Real32, b: Real32, d: Real32, e: Real32, u: u32)
    ensures
        approx_eq_real_sign_checked(a, b, d, e, u) == approx_eq_sign_checked_bits(
            a.bits,
            b.bits,
            d.bits,
            e.bits,
            u,
        ),
{
    lemma_bits32(d.bits);
}

impl SimdReal<Real32> for SimdReal32 {
    type Bits = SimdBits32;

    type Mask = Mask;

    open spec fn lane_seq(self) -> Seq<Real32> {
        self.lanes@
    }

    fn splat(value: Real32, lanes: usize) -> (r: Self) {
        let mut v: Vec<Real32> = Vec::new();
        let mut i: usize = 0;
        while i < lanes
            invariant
                i <= lanes,
                v@.len() == i,
                forall|j: int| 0 <= j < i ==> v@[j] == value,
            decreases lanes - i,
        {
            v.push(value);
            i = i + 1;
        }
        SimdReal32 { lanes: v }
    }

    fn len(&self) -> (r: usize) {
        self.lanes.len()
    }

    fn from_array(lanes: Vec<Real32>) -> (r: Self) {
        SimdReal32 { lanes }
    }

    fn to_array(self) -> (r: Vec<Real32>) {
        self.lanes
    }

    fn as_array(&self) -> (r: &Vec<Real32>) {
        &self.lanes
    }

    fn from_slice(slice: &Vec<Real32>, lanes: usize) -> (r: Self) {
        let mut v: Vec<Real32> = Vec::new();
        let mut i: usize = 0;
        while i < lanes
            invariant
                i <= lanes,
                lanes <= slice@.len(),
                v@.len() == i,
                forall|j: int| 0 <= j < i ==> v@[j] == slice@[j],
            decreases lanes - i,
        {
            v.push(slice[i]);
            i = i + 1;
        }
        proof {
            assert(v@ =~= slice@.subrange(0, lanes as int));
        }
        SimdReal32 { lanes: v }
    }

    fn get(&self, lane: usize) -> (r: Real32) {
        self.lanes[lane]
    }

    fn insert(self, lane: usize, value: Real32) -> (r: Self) {
        let mut lanes = self.lanes;
        lanes.set(lane, value);
        SimdReal32 { lanes }
    }

    fn from_bits(bits: SimdBits32) -> (r: Self) {
        let n = bits.lanes.len();
        let mut v: Vec<Real32> = Vec::new();
        let mut i: usize = 0;
        while i < n
            invariant
                i <= n,
                n == bits.lanes@.len(),
                v@.len() == i,
                forall|j: int| 0 <= j < i ==> (#[trigger] v@[j]).bits == bits.lanes@[j],
            decreases n - i,
        {
            v.push(Real32 { bits: bits.lanes[i] });
            i = i + 1;
        }
        SimdReal32 { lanes: v }
    }

    fn to_bits(self) -> (r: SimdBits32) {
        let n = self.lanes.len();
        let mut v: Vec<u32> = Vec::new();
        let mut i: usize = 0;
        while i < n
            invariant
                i <= n,
                n == self.lanes@.len(),
                v@.len() == i,
                forall|j: int| 0 <= j < i ==> v@[j] == self.lanes@[j].bits,
            decreases n - i,
        {
            v.push(self.lanes[i].bits);
            i = i + 1;
        }
        SimdBits32 { lanes: v }
    }

    fn simd_eq(&self, other: &Self) -> (r: Mask) {
        let n = self.lanes.len();
        let mut v: Vec<bool> = Vec::new();
        let mut i: usize = 0;
        while i < n
            invariant
                i <= n,
                n == self.lanes@.len(),
                n == other.lanes@.len(),
                v@.len() == i,
                forall|j: int|
                    0 <= j < i ==> v@[j] == (!self.lanes@[j].is_nan_spec()
                        && !other.lanes@[j].is_nan_spec() && self.lanes@[j].key_spec()
                        == other.lanes@[j].key_spec()),
            decreases n - i,
        {
            v.push(self.lanes[i].eq_value(&other.lanes[i]));
            i = i + 1;
        }
        Mask { lanes: v }
    }

    fn simd_ne(&self, other: &Self) -> (r: Mask) {
        let n = self.lanes.len();
        let mut v: Vec<bool> = Vec::new();
        let mut i: usize = 0;
        while i < n
            invariant
                i <= n,
                n == self.lanes@.len(),
                n == other.lanes@.len(),
                v@.len() == i,
                forall|j: int|
                    0 <= j < i ==> v@[j] == !(!self.lanes@[j].is_nan_spec()
                        && !other.lanes@[j].is_nan_spec() && self.lanes@[j].key_spec()
                        == other.lanes@[j].key_spec()),
            decreases n - i,
        {
            v.push(!self.lanes[i].eq_value(&other.lanes[i]));
            i = i + 1;
        }
        Mask { lanes: v }
    }

    fn simd_lt(&self, other: &Self) -> (r: Mask) {
        let n = self.lanes.len();
        let mut v: Vec<bool> = Vec::new();
        let mut i: usize = 0;
        while i < n
            invariant
                i <= n,
                n == self.lanes@.len(),
                n == other.lanes@.len(),
                v@.len() == i,
                forall|j: int|
                    0 <= j < i ==> v@[j] == (!self.lanes@[j].is_nan_spec()
                        && !other.lanes@[j].is_nan_spec() && self.lanes@[j].key_spec()
                        < other.lanes@[j].key_spec()),
            decreases n - i,
        {
            v.push(self.lanes[i].lt(&other.lanes[i]));
            i = i + 1;
        }
        Mask { lanes: v }
    }

    fn simd_gt(&self, other: &Self) -> (r: Mask) {
        let n = self.lanes.len();
        let mut v: Vec<bool> = Vec::new();
        let mut i: usize = 0;
        while i < n
            invariant
                i <= n,
                n == self.lanes@.len(),
                n == other.lanes@.len(),
                v@.len() == i,
                forall|j: int|
                    0 <= j < i ==> v@[j] == (!self.lanes@[j].is_nan_spec()
                        && !other.lanes@[j].is_nan_spec() && self.lanes@[j].key_spec()
                        > other.lanes@[j].key_spec()),
            decreases n - i,
        {
            v.push(self.lanes[i].gt(&other.lanes[i]));
            i = i + 1;
        }
        Mask { lanes: v }
    }

    fn simd_le(&self, other: &Self) -> (r: Mask) {
        let n = self.lanes.len();
        let mut v: Vec<bool> = Vec::new();
        let mut i: usize = 0;
        while i < n
            invariant
                i <= n,
                n == self.lanes@.len(),
                n == other.lanes@.len(),
                v@.len() == i,
                forall|j: int|
                    0 <= j < i ==> v@[j] == (!self.lanes@[j].is_nan_spec()
                        && !other.lanes@[j].is_nan_spec() && self.lanes@[j].key_spec()
                        <= other.lanes@[j].key_spec()),
            decreases n - i,
        {
            v.push(self.lanes[i].le(&other.lanes[i]));
            i = i + 1;
        }
        Mask { lanes: v }
    }

    fn simd_ge(&self, other: &Self) -> (r: Mask) {
        let n = self.lanes.len();
        let mut v: Vec<bool> = Vec::new();
        let mut i: usize = 0;
        while i < n
            invariant
                i <= n,
                n == self.lanes@.len(),
                n == other.lanes@.len(),
                v@.len() == i,
                forall|j: int|
                    0 <= j < i ==> v@[j] == (!self.lanes@[j].is_nan_spec()
                        && !other.lanes@[j].is_nan_spec() && self.lanes@[j].key_spec()
                        >= other.lanes@[j].key_spec()),
            decreases n - i,
        {
            v.push(self.lanes[i].ge(&other.lanes[i]));
            i = i + 1;
        }
        Mask { lanes: v }
    }

    fn is_sign_positive(&self) -> (r: Mask) {
        let n = self.lanes.len();
        let mut v: Vec<bool> = Vec::new();
        let mut i: usize = 0;
        while i < n
            invariant
                i <= n,
                n == self.lanes@.len(),
                v@.len() == i,
                forall|j: int| 0 <= j < i ==> v@[j] == !self.lanes@[j].is_sign_negative_spec(),
            decreases n - i,
        {
            v.push(self.lanes[i].is_sign_positive());
            i = i + 1;
        }
        Mask { lanes: v }
    }

    fn is_sign_negative(&self) -> (r: Mask) {
        let n = self.lanes.len();
        let mut v: Vec<bool> = Vec::new();
        let mut i: usize = 0;
        while i < n
            invariant
                i <= n,
                n == self.lanes@.len(),
                v@.len() == i,
                forall|j: int| 0 <= j < i ==> v@[j] == self.lanes@[j].is_sign_negative_spec(),
            decreases n - i,
        {
            v.push(self.lanes[i].is_sign_negative());
            i = i + 1;
        }
        Mask { lanes: v }
    }

    fn is_nan(&self) -> (r: Mask) {
        let n = self.lanes.len();
        let mut v: Vec<bool> = Vec::new();
        let mut i: usize = 0;
        while i < n
            invariant
                i <= n,
                n == self.lanes@.len(),
                v@.len() == i,
                forall|j: int| 0 <= j < i ==> v@[j] == self.lanes@[j].is_nan_spec(),
            decreases n - i,
        {
            v.push(self.lanes[i].is_nan());
            i = i + 1;
        }
        Mask { lanes: v }
    }

    fn is_infinite(&self) -> (r: Mask) {
        let n = self.lanes.len();
        let mut v: Vec<bool> = Vec::new();
        let mut i: usize = 0;
        while i < n
            invariant
                i <= n,
                n == self.lanes@.len(),
                v@.len() == i,
                forall|j: int| 0 <= j < i ==> v@[j] == self.lanes@[j].is_infinite_spec(),
            decreases n - i,
        {
            v.push(self.lanes[i].is_infinite());
            i = i + 1;
        }
        Mask { lanes: v }
    }

    fn is_finite(&self) -> (r: Mask) {
        let n = self.lanes.len();
        let mut v: Vec<bool> = Vec::new();
        let mut i: usize = 0;
        while i < n
            invariant
                i <= n,
                n == self.lanes@.len(),
                v@.len() == i,
                forall|j: int| 0 <= j < i ==> v@[j] == self.lanes@[j].is_finite_spec(),
            decreases n - i,
        {
            v.push(self.lanes[i].is_finite());
            i = i + 1;
        }
        Mask { lanes: v }
    }

    fn is_subnormal(&self) -> (r: Mask) {
        let n = self.lanes.len();
        let mut v: Vec<bool> = Vec::new();
        let mut i: usize = 0;
        while i < n
            invariant
                i <= n,
                n == self.lanes@.len(),
                v@.len() == i,
                forall|j: int| 0 <= j < i ==> v@[j] == self.lanes@[j].is_subnormal_spec(),
            decreases n - i,
        {
            v.push(self.lanes[i].is_subnormal());
            i = i + 1;
        }
        Mask { lanes: v }
    }

    fn is_normal(&self) -> (r: Mask) {
        let n = self.lanes.len();
        let mut v: Vec<bool> = Vec::new();
        let mut i: usize = 0;
        while i < n
            invariant
                i <= n,
                n == self.lanes@.len(),
                v@.len() == i,
                forall|j: int| 0 <= j < i ==> v@[j] == self.lanes@[j].is_normal_spec(),
            decreases n - i,
        {
            v.push(self.lanes[i].is_normal());
            i = i + 1;
        }
        Mask { lanes: v }
    }

    fn abs(self) -> (r: Self) {
        let n = self.lanes.len();
        let mut v: Vec<Real32> = Vec::new();
        let mut i: usize = 0;
        while i < n
            invariant
                i <= n,
                n == self.lanes@.len(),
                v@.len() == i,
                forall|j: int| 0 <= j < i ==> v@[j] == self.lanes@[j].abs_spec(),
            decreases n - i,
        {
            v.push(self.lanes[i].abs());
            i = i + 1;
        }
        SimdReal32 { lanes: v }
    }

    fn negate(self) -> (r: Self) {
        let n = self.lanes.len();
        let mut v: Vec<Real32> = Vec::new();
        let mut i: usize = 0;
        while i < n
            invariant
                i <= n,
                n == self.lanes@.len(),
                v@.len() == i,
                forall|j: int| 0 <= j < i ==> v@[j] == self.lanes@[j].negate_spec(),
            decreases n - i,
        {
            v.push(self.lanes[i].negate());
            i = i + 1;
        }
        SimdReal32 { lanes: v }
    }

    fn signum(self) -> (r: Self) {
        let n = self.lanes.len();
        let mut v: Vec<Real32> = Vec::new();
        let mut i: usize = 0;
        while i < n
            invariant
                i <= n,
                n == self.lanes@.len(),
                v@.len() == i,
                forall|j: int| 0 <= j < i ==> v@[j] == self.lanes@[j].signum_spec(),
            decreases n - i,
        {
            v.push(self.lanes[i].signum());
            i = i + 1;
        }
        SimdReal32 { lanes: v }
    }

    fn copysign(&self, sign: &Self) -> (r: Self) {
        let n = self.lanes.len();
        let mut v: Vec<Real32> = Vec::new();
        let mut i: usize = 0;
        while i < n
            invariant
                i <= n,
                n == self.lanes@.len(),
                n == sign.lanes@.len(),
                v@.len() == i,
                forall|j: int|
                    0 <= j < i ==> v@[j] == self.lanes@[j].copysign_spec(sign.lanes@[j]),
            decreases n - i,
        {
            v.push(self.lanes[i].copysign(sign.lanes[i]));
            i = i + 1;
        }
        SimdReal32 { lanes: v }
    }

    fn simd_min(&self, other: &Self) -> (r: Self) {
        let n = self.lanes.len();
        let mut v: Vec<Real32> = Vec::new();
        let mut i: usize = 0;
        while i < n
            invariant
                i <= n,
                n == self.lanes@.len(),
                n == other.lanes@.len(),
                v@.len() == i,
                forall|j: int|
                    0 <= j < i ==> v@[j] == min_real(self.lanes@[j], other.lanes@[j]),
            decreases n - i,
        {
            v.push(self.lanes[i].min(other.lanes[i]));
            i = i + 1;
        }
        SimdReal32 { lanes: v }
    }

    fn simd_max(&self, other: &Self) -> (r: Self) {
        let n = self.lanes.len();
        let mut v: Vec<Real32> = Vec::new();
        let mut i: usize = 0;
        while i < n
            invariant
                i <= n,
                n == self.lanes@.len(),
                n == other.lanes@.len(),
                v@.len() == i,
                forall|j: int|
                    0 <= j < i ==> v@[j] == max_real(self.lanes@[j], other.lanes@[j]),
            decreases n - i,
        {
            v.push(self.lanes[i].max(other.lanes[i]));
            i = i + 1;
        }
        SimdReal32 { lanes: v }
    }

    fn simd_clamp(&self, lo: &Self, hi: &Self) -> (r: Self) {
        let n = self.lanes.len();
        let mut v: Vec<Real32> = Vec::new();
        let mut i: usize = 0;
        while i < n
            invariant
                i <= n,
                n == self.lanes@.len(),
                n == lo.lanes@.len(),
                n == hi.lanes@.len(),
                forall|j: int|
                    0 <= j < n ==> !(#[trigger] lo.lanes@[j]).is_nan_spec()
                        && !hi.lanes@[j].is_nan_spec() && lo.lanes@[j].key_spec()
                        <= hi.lanes@[j].key_spec(),
                v@.len() == i,
                forall|j: int|
                    0 <= j < i ==> v@[j] == clamp_real(
                        self.lanes@[j],
                        lo.lanes@[j],
                        hi.lanes@[j],
                    ),
            decreases n - i,
        {
            v.push(self.lanes[i].clamp(lo.lanes[i], hi.lanes[i]));
            i = i + 1;
        }
        SimdReal32 { lanes: v }
    }

    fn negate_where(&self, mask: &Mask) -> (r: Self) {
        let n = self.lanes.len();
        let mut v: Vec<Real32> = Vec::new();
        let mut i: usize = 0;
        while i < n
            invariant
                i <= n,
                n == self.lanes@.len(),
                n == mask.lanes@.len(),
                v@.len() == i,
                forall|j: int|
                    0 <= j < i ==> v@[j] == (if mask.lanes@[j] {
                        self.lanes@[j].negate_spec()
                    } else {
                        self.lanes@[j]
                    }),
            decreases n - i,
        {
            v.push(
                if mask.lanes[i] {
                    self.lanes[i].negate()
                } else {
                    self.lanes[i]
                },
            );
            i = i + 1;
        }
        SimdReal32 { lanes: v }
    }

    fn simd_approx_eq(
        &self,
        other: &Self,
        difference: &Self,
        epsilon: &Self,
        ulp: &SimdBits32,
    ) -> (r: Mask) {
        let n = self.lanes.len();
        let mut v: Vec<bool> = Vec::new();
        let mut i: usize = 0;
        while i < n
            invariant
                i <= n,
                n == self.lanes@.len(),
                n == other.lanes@.len(),
                n == difference.lanes@.len(),
                n == epsilon.lanes@.len(),
                n == ulp.lanes@.len(),
                v@.len() == i,
                forall|j: int|
                    0 <= j < i ==> v@[j] == approx_eq_real_sign_checked(
                        self.lanes@[j],
                        other.lanes@[j],
                        difference.lanes@[j],
                        epsilon.lanes@[j],
                        ulp.lanes@[j],
                    ),
            decreases n - i,
        {
            let ok = self.lanes[i].approx_eq_sign_checked(
                &other.lanes[i],
                &difference.lanes[i],
                &epsilon.lanes[i],
                &ulp.lanes[i],
            );
            proof {
                lemma_approx_real_bridge32(
                    self.lanes@[i as int],
                    other.lanes@[i as int],
                    difference.lanes@[i as int],
                    epsilon.lanes@[i as int],
                    ulp.lanes@[i as int],
                );
            }
            v.push(ok);
            i = i + 1;
        }
        Mask { lanes: v }
    }

    fn simd_approx_ne(
        &self,
        other: &Self,
        difference: &Self,
        epsilon: &Self,
        ulp: &SimdBits32,
    ) -> (r: Mask) {
        let n = self.lanes.len();
        let mut v: Vec<bool> = Vec::new();
        let mut i: usize = 0;
        while i < n
            invariant
                i <= n,
                n == self.lanes@.len(),
                n == other.lanes@.len(),
                n == difference.lanes@.len(),
                n == epsilon.lanes@.len(),
                n == ulp.lanes@.len(),
                v@.len() == i,
                forall|j: int|
                    0 <= j < i ==> v@[j] == !approx_eq_real_sign_checked(
                        self.lanes@[j],
                        other.lanes@[j],
                        difference.lanes@[j],
                        epsilon.lanes@[j],
                        ulp.lanes@[j],
                    ),
            decreases n - i,
        {
            let ok = self.lanes[i].approx_ne_sign_checked(
                &other.lanes[i],
                &difference.lanes[i],
                &epsilon.lanes[i],
                &ulp.lanes[i],
            );
            proof {
                lemma_approx_real_bridge32(
                    self.lanes@[i as int],
                    other.lanes@[i as int],
                    difference.lanes@[i as int],
                    epsilon.lanes@[i as int],
                    ulp.lanes@[i as int],
                );
            }
            v.push(ok);
            i = i + 1;
        }
        Mask { lanes: v }
    }

    fn reduce_min(&self) -> (r: Real32) {
        let mut acc = self.lanes[0];
        let mut i: usize = 1;
        while i < self.lanes.len()
            invariant
                1 <= i <= self.lanes@.len(),
                exists|j: int| 0 <= j < i && acc == self.lanes@[j],
                forall|j: int|
                    0 <= j < i && !(#[trigger] self.lanes@[j]).is_nan_spec()
                        ==> !acc.is_nan_spec() && acc.key_spec() <= self.lanes@[j].key_spec(),
            decreases self.lanes@.len() - i,
        {
            let lane = self.lanes[i];
            let next = acc.min(lane);
            proof {
                if next == self.lanes@[i as int] {
                    assert(next == self.lanes@[i as int]);
                } else {
                    let j0 = choose|j: int| 0 <= j < i && acc == self.lanes@[j];
                    assert(next == self.lanes@[j0]);
                }
            }
            acc = next;
            i = i + 1;
        }
        acc
    }

    fn reduce_max(&self) -> (r: Real32) {
        let mut acc = self.lanes[0];
        let mut i: usize = 1;
        while i < self.lanes.len()
            invariant
                1 <= i <= self.lanes@.len(),
                exists|j: int| 0 <= j < i && acc == self.lanes@[j],
                forall|j: int|
                    0 <= j < i && !(#[trigger] self.lanes@[j]).is_nan_spec()
                        ==> !acc.is_nan_spec() && acc.key_spec() >= self.lanes@[j].key_spec(),
            decreases self.lanes@.len() - i,
        {
            let lane = self.lanes[i];
            let next = acc.max(lane);
            proof {
                if next == self.lanes@[i as int] {
                    assert(next == self.lanes@[i as int]);
                } else {
                    let j0 = choose|j: int| 0 <= j < i && acc == self.lanes@[j];
                    assert(next == self.lanes@[j0]);
                }
            }
            acc = next;
            i = i + 1;
        }
        acc
    }

    fn reverse(self) -> (r: Self) {
        let n = self.lanes.len();
        let mut v: Vec<Real32> = Vec::new();
        let mut i: usize = 0;
        while i < n
            invariant
                i <= n,
                n == self.lanes@.len(),
                v@.len() == i,
                forall|j: int| 0 <= j < i ==> v@[j] == self.lanes@[n - 1 - j],
            decreases n - i,
        {
            v.push(self.lanes[n - 1 - i]);
            i = i + 1;
        }
        SimdReal32 { lanes: v }
    }

    fn rotate_lanes_left(self, offset: usize) -> (r: Self) {
        let n = self.lanes.len();
        let off = offset % n;
        let mut v: Vec<Real32> = Vec::new();
        let mut i: usize = 0;
        while i < n
            invariant
                i <= n,
                n == self.lanes@.len(),
                off < n,
                v@.len() == i,
                forall|j: int|
                    0 <= j < i ==> v@[j] == self.lanes@[if j + off < n {
                        j + off
                    } else {
                        j + off - n
                    }],
            decreases n - i,
        {
            let idx = if i < n - off {
                i + off
            } else {
                i - (n - off)
            };
            v.push(self.lanes[idx]);
            i = i + 1;
        }
        proof {
            assert(v@ =~= self.lanes@.subrange(off as int, n as int) + self.lanes@.subrange(
                0,
                off as int,
            ));
        }
        SimdReal32 { lanes: v }
    }

    fn rotate_lanes_right(self, offset: usize) -> (r: Self) {
        let n = self.lanes.len();
        let off = offset % n;
        let mut v: Vec<Real32> = Vec::new();
        let mut i: usize = 0;
        while i < n
            invariant
                i <= n,
                n == self.lanes@.len(),
                off < n,
                v@.len() == i,
                forall|j: int|
                    0 <= j < i ==> v@[j] == self.lanes@[if j < off {
                        j + n - off
                    } else {
                        j - off
                    }],
            decreases n - i,
        {
            let idx = if i < off {
                i + (n - off)
            } else {
                i - off
            };
            v.push(self.lanes[idx]);
            i = i + 1;
        }
        proof {
            assert(v@ =~= self.lanes@.subrange(n - off as int, n as int) + self.lanes@.subrange(
                0,
                n - off as int,
            ));
        }
        SimdReal32 { lanes: v }
    }

    fn gather_or(slice: &Vec<Real32>, idxs: &Vec<usize>, or: &Self) -> (r: Self) {
        let n = idxs.len();
        let mut v: Vec<Real32> = Vec::new();
        let mut i: usize = 0;
        while i < n
            invariant
                i <= n,
                n == idxs@.len(),
                n == or.lanes@.len(),
                v@.len() == i,
                forall|j: int|
                    0 <= j < i ==> v@[j] == (if idxs@[j] < slice@.len() {
                        slice@[idxs@[j] as int]
                    } else {
                        or.lanes@[j]
                    }),
            decreases n - i,
        {
            let idx = idxs[i];
            v.push(
                if idx < slice.len() {
                    slice[idx]
                } else {
                    or.lanes[i]
                },
            );
            i = i + 1;
        }
        SimdReal32 { lanes: v }
    }

    fn gather_or_default(slice: &Vec<Real32>, idxs: &Vec<usize>) -> (r: Self) {
        let n = idxs.len();
        let mut v: Vec<Real32> = Vec::new();
        let mut i: usize = 0;
        while i < n
            invariant
                i <= n,
                n == idxs@.len(),
                v@.len() == i,
                forall|j: int|
                    0 <= j < i ==> v@[j] == (if idxs@[j] < slice@.len() {
                        slice@[idxs@[j] as int]
                    } else {
                        Real32 { bits: 0u32 }
                    }),
            decreases n - i,
        {
            let idx = idxs[i];
            v.push(
                if idx < slice.len() {
                    slice[idx]
                } else {
                    Real32 { bits: 0 }
                },
            );
            i = i + 1;
        }
        SimdReal32 { lanes: v }
    }

    fn gather_select(
        slice: &Vec<Real32>,
        enable: &Mask,
        idxs: &Vec<usize>,
        or: &Self,
    ) -> (r: Self) {
        let n = idxs.len();
        let mut v: Vec<Real32> = Vec::new();
        let mut i: usize = 0;
        while i < n
            invariant
                i <= n,
                n == idxs@.len(),
                n == or.lanes@.len(),
                n == enable.lanes@.len(),
                v@.len() == i,
                forall|j: int|
                    0 <= j < i ==> v@[j] == (if enable.lanes@[j] && idxs@[j] < slice@.len() {
                        slice@[idxs@[j] as int]
                    } else {
                        or.lanes@[j]
                    }),
            decreases n - i,
        {
            let idx = idxs[i];
            v.push(
                if enable.lanes[i] && idx < slice.len() {
                    slice[idx]
                } else {
                    or.lanes[i]
                },
            );
            i = i + 1;
        }
        SimdReal32 { lanes: v }
    }

    fn scatter(&self, slice: &mut Vec<Real32>, idxs: &Vec<usize>) {
        let ghost t = slice@;
        let n = self.lanes.len();
        let mut i: usize = 0;
        while i < n
            invariant
                i <= n,
                n == self.lanes@.len(),
                n == idxs@.len(),
                slice@.len() == t.len(),
                slice@ == scatter_seq(t, self.lanes@.take(i as int), idxs@.take(i as int)),
            decreases n - i,
        {
            let idx = idxs[i];
            if idx < slice.len() {
                slice.set(idx, self.lanes[i]);
            }
            proof {
                let la = self.lanes@.take(i + 1);
                let ia = idxs@.take(i + 1);
                assert(la.drop_last() =~= self.lanes@.take(i as int));
                assert(ia.drop_last() =~= idxs@.take(i as int));
                assert(la.last() == self.lanes@[i as int]);
                assert(ia.last() == idxs@[i as int]);
            }
            i = i + 1;
        }
        proof {
            assert(self.lanes@.take(n as int) =~= self.lanes@);
            assert(idxs@.take(n as int) =~= idxs@);
        }
    }

    fn scatter_select(&self, slice: &mut Vec<Real32>, enable: &Mask, idxs: &Vec<usize>) {
        let ghost t = slice@;
        let n = self.lanes.len();
        let mut i: usize = 0;
        while i < n
            invariant
                i <= n,
                n == self.lanes@.len(),
                n == idxs@.len(),
                n == enable.lanes@.len(),
                slice@.len() == t.len(),
                slice@ == scatter_select_seq(
                    t,
                    self.lanes@.take(i as int),
                    idxs@.take(i as int),
                    enable.lanes@.take(i as int),
                ),
            decreases n - i,
        {
            let idx = idxs[i];
            if enable.lanes[i] && idx < slice.len() {
                slice.set(idx, self.lanes[i]);
            }
            proof {
                let la = self.lanes@.take(i + 1);
                let ia = idxs@.take(i + 1);
                let ea = enable.lanes@.take(i + 1);
                assert(la.drop_last() =~= self.lanes@.take(i as int));
                assert(ia.drop_last() =~= idxs@.take(i as int));
                assert(ea.drop_last() =~= enable.lanes@.take(i as int));
                assert(la.last() == self.lanes@[i as int]);
                assert(ia.last() == idxs@[i as int]);
                assert(ea.last() == enable.lanes@[i as int]);
            }
            i = i + 1;
        }
        proof {
            assert(self.lanes@.take(n as int) =~= self.lanes@);
            assert(idxs@.take(n as int) =~= idxs@);
            assert(enable.lanes@.take(n as int) =~= enable.lanes@);
        }
    }

    fn swizzle(&self, idxs: &Vec<usize>) -> (r: Self) {
        let n = idxs.len();
        let mut v: Vec<Real32> = Vec::new();
        let mut i: usize = 0;
        while i < n
            invariant
                i <= n,
                n == idxs@.len(),
                forall|j: int| 0 <= j < n ==> #[trigger] idxs@[j] < self.lanes@.len(),
                v@.len() == i,
                forall|j: int| 0 <= j < i ==> v@[j] == self.lanes@[idxs@[j] as int],
            decreases n - i,
        {
            v.push(self.lanes[idxs[i]]);
            i = i + 1;
        }
        SimdReal32 { lanes: v }
    }

    fn concat_swizzle(&self, other: &Self, idxs: &Vec<usize>) -> (r: Self) {
        let n = idxs.len();
        let mut v: Vec<Real32> = Vec::new();
        let mut i: usize = 0;
        while i < n
            invariant
                i <= n,
                n == idxs@.len(),
                forall|j: int|
                    0 <= j < n ==> #[trigger] idxs@[j] < self.lanes@.len() + other.lanes@.len(),
                v@.len() == i,
                forall|j: int|
                    0 <= j < i ==> v@[j] == (if idxs@[j] < self.lanes@.len() {
                        self.lanes@[idxs@[j] as int]
                    } else {
                        other.lanes@[idxs@[j] - self.lanes@.len()]
                    }),
            decreases n - i,
        {
            let idx = idxs[i];
            v.push(
                if idx < self.lanes.len() {
                    self.lanes[idx]
                } else {
                    other.lanes[idx - self.lanes.len()]
                },
            );
            i = i + 1;
        }
        SimdReal32 { lanes: v }
    }

    fn interleave(&self, other: &Self) -> (r: (Self, Self)) {
        let n = self.lanes.len();
        let mut first: Vec<Real32> = Vec::new();
        let mut second: Vec<Real32> = Vec::new();
        let mut i: usize = 0;
        while i < n
            invariant
                i <= n,
                n == self.lanes@.len(),
                n == other.lanes@.len(),
                n <= usize::MAX / 2,
                first@.len() == i,
                second@.len() == i,
                forall|j: int|
                    0 <= j < i ==> #[trigger] first@[j] == interleave_lane(
                        self.lanes@,
                        other.lanes@,
                        j,
                    ),
                forall|j: int|
                    0 <= j < i ==> #[trigger] second@[j] == interleave_lane(
                        self.lanes@,
                        other.lanes@,
                        n + j,
                    ),
            decreases n - i,
        {
            first.push(
                if i % 2 == 0 {
                    self.lanes[i / 2]
                } else {
                    other.lanes[i / 2]
                },
            );
            let k = n + i;
            second.push(
                if k % 2 == 0 {
                    self.lanes[k / 2]
                } else {
                    other.lanes[k / 2]
                },
            );
            i = i + 1;
        }
        (SimdReal32 { lanes: first }, SimdReal32 { lanes: second })
    }

    fn deinterleave(&self, other: &Self) -> (r: (Self, Self)) {
        let n = self.lanes.len();
        let mut first: Vec<Real32> = Vec::new();
        let mut second: Vec<Real32> = Vec::new();
        let mut i: usize = 0;
        while i < n
            invariant
                i <= n,
                n == self.lanes@.len(),
                n == other.lanes@.len(),
                n <= usize::MAX / 2,
                first@.len() == i,
                second@.len() == i,
                forall|j: int|
                    0 <= j < i ==> #[trigger] first@[j] == (if 2 * j < n {
                        self.lanes@[2 * j]
                    } else {
                        other.lanes@[2 * j - n]
                    }),
                forall|j: int|
                    0 <= j < i ==> #[trigger] second@[j] == (if 2 * j + 1 < n {
                        self.lanes@[2 * j + 1]
                    } else {
                        other.lanes@[2 * j + 1 - n]
                    }),
            decreases n - i,
        {
            first.push(
                if 2 * i < n {
                    self.lanes[2 * i]
                } else {
                    other.lanes[2 * i - n]
                },
            );
            second.push(
                if 2 * i + 1 < n {
                    self.lanes[2 * i + 1]
                } else {
                    other.lanes[2 * i + 1 - n]
                },
            );
            i = i + 1;
        }
        (SimdReal32 { lanes: first }, SimdReal32 { lanes: second })
    }
}

impl Select<Mask> for SimdReal32 {
    open spec fn select_req(mask: Mask, true_values: SimdReal32, false_values: SimdReal32) -> bool {
        mask.lanes@.len() == true_values.lanes@.len() && true_values.lanes@.len()
            == false_values.lanes@.len()
    }

    open spec fn select_ens(
        mask: Mask,
        true_values: SimdReal32,
        false_values: SimdReal32,
        r: SimdReal32,
    ) -> bool {
        r.lanes@.len() == mask.lanes@.len() && forall|i: int|
            0 <= i < r.lanes@.len() ==> r.lanes@[i] == (if mask.lanes@[i] {
                true_values.lanes@[i]
            } else {
                false_values.lanes@[i]
            })
    }

    fn select(mask: Mask, true_values: SimdReal32, false_values: SimdReal32) -> (r: SimdReal32) {
        let n = mask.lanes.len();
        let mut v: Vec<Real32> = Vec::new();
        let mut i: usize = 0;
        while i < n
            invariant
                i <= n,
                n == mask.lanes@.len(),
                n == true_values.lanes@.len(),
                n == false_values.lanes@.len(),
                v@.len() == i,
                forall|j: int|
                    0 <= j < i ==> v@[j] == (if mask.lanes@[j] {
                        true_values.lanes@[j]
                    } else {
                        false_values.lanes@[j]
                    }),
            decreases n - i,
        {
            v.push(
                if mask.lanes[i] {
                    true_values.lanes[i]
                } else {
                    false_values.lanes[i]
                },
            );
            i = i + 1;
        }
        SimdReal32 { lanes: v }
    }
}

impl ApproxEq for SimdReal32 {
    type Tol = Real32;

    type Dist = u32;

    open spec fn approx_eq_spec(
        self,
        other: Self,
        difference: Self,
        epsilon: Real32,
        ulp: u32,
    ) -> bool {
        self.lanes@.len() == other.lanes@.len() && self.lanes@.len() == difference.lanes@.len()
            && forall|i: int|
            0 <= i < self.lanes@.len() ==> approx_eq_sign_checked_bits(
                (#[trigger] self.lanes@[i]).bits,
                other.lanes@[i].bits,
                difference.lanes@[i].bits,
                epsilon.bits,
                ulp,
            )
    }

    fn approx_eq(
        &self,
        other: &Self,
        difference: &Self,
        epsilon: &Real32,
        ulp: &u32,
    ) -> (r: bool) {
        let n = self.lanes.len();
        if other.lanes.len() != n || difference.lanes.len() != n {
            return false;
        }
        let mut i: usize = 0;
        while i < n
            invariant
                i <= n,
                n == self.lanes@.len(),
                n == other.lanes@.len(),
                n == difference.lanes@.len(),
                forall|j: int|
                    0 <= j < i ==> approx_eq_sign_checked_bits(
                        (#[trigger] self.lanes@[j]).bits,
                        other.lanes@[j].bits,
                        difference.lanes@[j].bits,
                        epsilon.bits,
                        *ulp,
                    ),
            decreases n - i,
        {
            if !self.lanes[i].approx_eq_sign_checked(
                &other.lanes[i],
                &difference.lanes[i],
                epsilon,
                ulp,
            ) {
                assert(!approx_eq_sign_checked_bits(
                    self.lanes@[i as int].bits,
                    other.lanes@[i as int].bits,
                    difference.lanes@[i as int].bits,
                    epsilon.bits,
                    *ulp,
                ));
                return false;
            }
            i = i + 1;
        }
        true
    }

    fn approx_ne(
        &self,
        other: &Self,
        difference: &Self,
        epsilon: &Real32,
        ulp: &u32,
    ) -> (r: bool) {
        !self.approx_eq(other, difference, epsilon, ulp)
    }
}

} // verus!
