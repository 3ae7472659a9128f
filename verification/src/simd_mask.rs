//! Mask vectors: one boolean per lane.

use vstd::prelude::*;
use crate::Select;

verus! {

/// Mask vector of a lane-wise comparison, one boolean per lane.
pub trait SimdMask: Sized {
    /// The lanes.
    spec fn mask_seq(self) -> Seq<bool>;

    /// Constructs a mask by setting all lanes to the given value.
    fn splat(value: bool, lanes: usize) -> (r: Self)
        ensures
            r.mask_seq().len() == lanes,
            forall|i: int| 0 <= i < lanes ==> r.mask_seq()[i] == value,
    ;

    /// The number of lanes.
    fn len(&self) -> (r: usize)
        ensures
            r == self.mask_seq().len(),
    ;

    /// Converts a boolean vector to a mask.
    fn from_array(lanes: Vec<bool>) -> (r: Self)
        ensures
            r.mask_seq() == lanes@,
    ;

    /// Converts a mask to a boolean vector.
    fn to_array(self) -> (r: Vec<bool>)
        ensures
            r@ == self.mask_seq(),
    ;

    /// Constructs a mask with `lane` set to `value` and all the other
    /// lanes set to `!value`.
    fn flag(lane: usize, value: bool, lanes: usize) -> (r: Self)
        requires
            lane < lanes,
        ensures
            r.mask_seq().len() == lanes,
            forall|i: int|
                0 <= i < lanes ==> r.mask_seq()[i] == (if i == lane {
                    value
                } else {
                    !value
                }),
    ;

    /// Returns true if all lanes are set, or false otherwise.
    fn all(&self) -> (r: bool)
        ensures
            r == (forall|i: int| 0 <= i < self.mask_seq().len() ==> self.mask_seq()[i]),
    ;

    /// Returns true if any lane is set, or false otherwise.
    fn any(&self) -> (r: bool)
        ensures
            r == (exists|i: int| 0 <= i < self.mask_seq().len() && self.mask_seq()[i]),
    ;

    /// Sets the value of the specified lane.
    fn set(&mut self, lane: usize, value: bool)
        requires
            lane < old(self).mask_seq().len(),
        ensures
            final(self).mask_seq() == old(self).mask_seq().update(lane as int, value),
    ;

    /// Tests the value of the specified lane.
    fn test(&self, lane: usize) -> (r: bool)
        requires
            lane < self.mask_seq().len(),
        ensures
            r == self.mask_seq()[lane as int],
    ;
}

/// A per-lane boolean mask over any number of lanes.
#[derive(Debug)]
pub struct Mask {
    /// The lanes.
    pub lanes: Vec<bool>,
}

impl SimdMask for Mask {
    open spec fn mask_seq(self) -> Seq<bool> {
        self.lanes@
    }

    fn splat(value: bool, lanes: usize) -> (r: Self) {
        let mut v: Vec<bool> = Vec::new();
        let mut i: usize = 0;
        while i < lanes
            invariant
                i <= lanes,
                v@.len() == i,
                forall|j: int| 0 <= j < i ==> v@[j] == value,
            decreases lanes - i,
        {
            v.push(value);
            i = i + 1;
        }
        Mask { lanes: v }
    }

    fn len(&self) -> (r: usize) {
        self.lanes.len()
    }

    fn from_array(lanes: Vec<bool>) -> (r: Self) {
        Mask { lanes }
    }

    fn to_array(self) -> (r: Vec<bool>) {
        self.lanes
    }

    fn flag(lane: usize, value: bool, lanes: usize) -> (r: Self) {
        let mut v: Vec<bool> = Vec::new();
        let mut i: usize = 0;
        while i < lanes
            invariant
                i <= lanes,
                v@.len() == i,
                forall|j: int|
                    0 <= j < i ==> v@[j] == (if j == lane {
                        value
                    } else {
                        !value
                    }),
            decreases lanes - i,
        {
            v.push(if i == lane {
                value
            } else {
                !value
            });
            i = i + 1;
        }
        Mask { lanes: v }
    }

    fn all(&self) -> (r: bool) {
        let mut i: usize = 0;
        while i < self.lanes.len()
            invariant
                i <= self.lanes@.len(),
                forall|j: int| 0 <= j < i ==> self.lanes@[j],
            decreases self.lanes@.len() - i,
        {
            if !self.lanes[i] {
                assert(!self.mask_seq()[i as int]);
                return false;
            }
            i = i + 1;
        }
        true
    }

    fn any(&self) -> (r: bool) {
        let mut i: usize = 0;
        while i < self.lanes.len()
            invariant
                i <= self.lanes@.len(),
                forall|j: int| 0 <= j < i ==> !self.lanes@[j],
            decreases self.lanes@.len() - i,
        {
            if self.lanes[i] {
                assert(self.mask_seq()[i as int]);
                return true;
            }
            i = i + 1;
        }
        false
    }

    fn set(&mut self, lane: usize, value: bool) {
        self.lanes.set(lane, value);
    }

    fn test(&self, lane: usize) -> (r: bool) {
        self.lanes[lane]
    }
}

impl Select<Mask> for Mask {
    open spec fn select_req(mask: Mask, true_values: Mask, false_values: Mask) -> bool {
        mask.lanes@.len() == true_values.lanes@.len() && true_values.lanes@.len()
            == false_values.lanes@.len()
    }

    open spec fn select_ens(mask: Mask, true_values: Mask, false_values: Mask, r: Mask) -> bool {
        r.lanes@.len() == mask.lanes@.len() && forall|i: int|
            0 <= i < r.lanes@.len() ==> r.lanes@[i] == (if mask.lanes@[i] {
                true_values.lanes@[i]
            } else {
                false_values.lanes@[i]
            })
    }

    fn select(mask: Mask, true_values: Mask, false_values: Mask) -> (r: Mask) {
        let mut v: Vec<bool> = Vec::new();
        let mut i: usize = 0;
        let n = mask.lanes.len();
        while i < n
            invariant
                i <= n,
                n == mask.lanes@.len(),
                n == true_values.lanes@.len(),
                n == false_values.lanes@.len(),
                v@.len() == i,
                forall|j: int|
                    0 <= j < i ==> v@[j] == (if mask.lanes@[j] {
                        true_values.lanes@[j]
                    } else {
                        false_values.lanes@[j]
                    }),
            decreases n - i,
        {
            v.push(if mask.lanes[i] {
                true_values.lanes[i]
            } else {
                false_values.lanes[i]
            });
            i = i + 1;
        }
        Mask { lanes: v }
    }
}

} // verus!
