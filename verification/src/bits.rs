//! Bit-pattern integers of the real scalars, with the saturating
//! arithmetic that the ULP distance computation rests on.

use vstd::prelude::*;

verus! {

/// The absolute difference of two integers.
pub open spec fn abs_diff_int(x: int, y: int) -> int {
    if x >= y {
        x - y
    } else {
        y - x
    }
}

/// Bits representation of a real scalar: the unsigned integer of the same
/// width, compared and subtracted without wrapping.
pub trait Bits: Sized + Copy {
    /// The value as a mathematical integer.
    spec fn as_int(self) -> int;

    /// The largest representable value as a mathematical integer.
    spec fn max_int() -> int;

    /// Saturating add.
    fn saturating_add(self, other: Self) -> (r: Self)
        ensures
            r.as_int() == if self.as_int() + other.as_int() <= Self::max_int() {
                self.as_int() + other.as_int()
            } else {
                Self::max_int()
            },
    ;

    /// Saturating subtract.
    fn saturating_sub(self, other: Self) -> (r: Self)
        ensures
            r.as_int() == if self.as_int() >= other.as_int() {
                self.as_int() - other.as_int()
            } else {
                0
            },
    ;

    /// Absolute subtract: the exact absolute difference, computed as
    /// `self.saturating_sub(other) | other.saturating_sub(self)`.
    ///
    /// At most one of the two saturating differences is non-zero, so the
    /// bitwise or recovers the true distance without a branch.
    fn abs_sub(self, other: Self) -> (r: Self)
        ensures
            r.as_int() == abs_diff_int(self.as_int(), other.as_int()),
    ;
}

proof fn lemma_or_with_zero_u32(x: u32)
    by (bit_vector)
    ensures
        x | 0 == x,
        0 | x == x,
{
}

proof fn lemma_or_with_zero_u64(x: u64)
    by (bit_vector)
    ensures
        x | 0 == x,
        0 | x == x,
{
}

impl Bits for u32 {
    open spec fn as_int(self) -> int {
        self as int
    }

    open spec fn max_int() -> int {
        u32::MAX as int
    }

    fn saturating_add(self, other: Self) -> (r: Self) {
        u32::saturating_add(self, other)
    }

    fn saturating_sub(self, other: Self) -> (r: Self) {
        u32::saturating_sub(self, other)
    }

    fn abs_sub(self, other: Self) -> (r: Self) {
        let down = u32::saturating_sub(self, other);
        let up = u32::saturating_sub(other, self);
        proof {
            lemma_or_with_zero_u32(down);
            lemma_or_with_zero_u32(up);
        }
        down | up
    }
}

impl Bits for u64 {
    open spec fn as_int(self) -> int {
        self as int
    }

    open spec fn max_int() -> int {
        u64::MAX as int
    }

    fn saturating_add(self, other: Self) -> (r: Self) {
        u64::saturating_add(self, other)
    }

    fn saturating_sub(self, other: Self) -> (r: Self) {
        u64::saturating_sub(self, other)
    }

    fn abs_sub(self, other: Self) -> (r: Self) {
        let down = u64::saturating_sub(self, other);
        let up = u64::saturating_sub(other, self);
        proof {
            lemma_or_with_zero_u64(down);
            lemma_or_with_zero_u64(up);
        }
        down | up
    }
}

} // verus!
