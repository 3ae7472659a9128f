//! The saturating arithmetic and the exactness of the absolute
//! bit distance.

use lav::bits::Bits;

#[test]
fn abs_sub_exact_u64() {
    let edges: [u64; 8] = [0, 1, 2, 0x8000_0000_0000_0000, u64::MAX - 1, u64::MAX, 12345, 99999];
    for &p in &edges {
        for &q in &edges {
            let wide = (p as u128).max(q as u128) - (p as u128).min(q as u128);
            assert_eq!(Bits::abs_sub(p, q) as u128, wide, "abs_sub {p} {q}");
        }
    }
}

#[test]
fn abs_sub_exact_u32() {
    let edges: [u32; 8] = [0, 1, 2, 0x8000_0000, u32::MAX - 1, u32::MAX, 12345, 99999];
    for &p in &edges {
        for &q in &edges {
            let wide = (p as u64).max(q as u64) - (p as u64).min(q as u64);
            assert_eq!(Bits::abs_sub(p, q) as u64, wide, "abs_sub {p} {q}");
        }
    }
}

#[test]
fn saturating_ops() {
    assert_eq!(Bits::saturating_add(u64::MAX, 1u64), u64::MAX);
    assert_eq!(Bits::saturating_add(1u64, 2u64), 3);
    assert_eq!(Bits::saturating_sub(1u64, 2u64), 0);
    assert_eq!(Bits::saturating_sub(5u64, 2u64), 3);
    assert_eq!(Bits::saturating_add(u32::MAX, 1u32), u32::MAX);
    assert_eq!(Bits::saturating_sub(1u32, 2u32), 0);
}

#[test]
fn abs_sub_is_branchless_or_of_saturating_subs() {
    let p: u64 = 17;
    let q: u64 = 250;
    assert_eq!(
        Bits::abs_sub(p, q),
        Bits::saturating_sub(p, q) | Bits::saturating_sub(q, p),
    );
}
