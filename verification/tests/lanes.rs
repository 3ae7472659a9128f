//! The lane-wise operations against their scalar counterparts.

use lav::real64::Real64;
use lav::scalar::Real;
use lav::simd_bits::SimdBits;
use lav::simd_bits64::SimdBits64;
use lav::simd_mask::{Mask, SimdMask};
use lav::simd_real::SimdReal;
use lav::simd_real64::SimdReal64;
use lav::real32::Real32;
use lav::simd_bits32::SimdBits32;
use lav::simd_real32::SimdReal32;
use lav::{ApproxEq, Select};

fn r(x: f64) -> Real64 {
    Real64 { bits: x.to_bits() }
}

fn vector(xs: &[f64]) -> SimdReal64 {
    SimdReal64 { lanes: xs.iter().map(|&x| r(x)).collect() }
}

#[test]
fn lane_wise_equals_scalar() {
    // A vector built by repeating one scalar pair agrees with the
    // sign-checked scalar comparison, lane count four.
    let pairs: [(f64, f64, f64, u64); 4] = [
        (1.0, 1.0 + 2e-16, 0.0, 1),
        (1.0, 1.5, 0.25, 2),
        (0.0, -0.0, 0.0, 0),
        (2.0, f64::NAN, 1.0, 9),
    ];
    for (a, b, e, u) in pairs {
        let va = SimdReal64::splat(r(a), 4);
        let vb = SimdReal64::splat(r(b), 4);
        let vd = SimdReal64::splat(r(a - b), 4);
        let all = va.approx_eq(&vb, &vd, &r(e), &u);
        let scalar = r(a).approx_eq_sign_checked(&r(b), &r(a - b), &r(e), &u);
        assert_eq!(all, scalar, "splat {a} {b}");
    }
}

#[test]
fn simd_approx_eq_mixes_lanes() {
    let a = vector(&[1.0, 1.0, 0.0, f64::NAN]);
    let b = vector(&[1.0 + 2e-16, 1.5, -0.0, f64::NAN]);
    let d = vector(&[
        1.0 - (1.0 + 2e-16),
        1.0 - 1.5,
        0.0 - (-0.0),
        f64::NAN - f64::NAN,
    ]);
    let e = SimdReal64::splat(r(0.0), 4);
    let u = SimdBits64::splat(1u64, 4);
    let m = a.simd_approx_eq(&b, &d, &e, &u);
    assert_eq!(m.to_array(), vec![true, false, true, false]);
}

#[test]
fn simd_approx_ne_negates() {
    let a = vector(&[1.0, 2.0]);
    let b = vector(&[1.0, 3.0]);
    let d = vector(&[0.0, -1.0]);
    let e = SimdReal64::splat(r(0.0), 2);
    let u = SimdBits64::splat(0u64, 2);
    let eq = a.simd_approx_eq(&b, &d, &e, &u);
    let ne = a.simd_approx_ne(&b, &d, &e, &u);
    assert_eq!(eq.to_array(), vec![true, false]);
    assert_eq!(ne.to_array(), vec![false, true]);
}

#[test]
fn lane_wise_classification() {
    let v = vector(&[f64::NAN, f64::INFINITY, 0.0, 5e-324, 1.0, -1.0]);
    assert_eq!(v.is_nan().to_array(), vec![true, false, false, false, false, false]);
    assert_eq!(v.is_infinite().to_array(), vec![false, true, false, false, false, false]);
    assert_eq!(v.is_finite().to_array(), vec![false, false, true, true, true, true]);
    assert_eq!(v.is_subnormal().to_array(), vec![false, false, false, true, false, false]);
    assert_eq!(v.is_normal().to_array(), vec![false, false, false, false, true, true]);
    assert_eq!(
        v.is_sign_negative().to_array(),
        vec![false, false, false, false, false, true]
    );
}

#[test]
fn lane_wise_comparisons() {
    let a = vector(&[1.0, 2.0, f64::NAN, 0.0]);
    let b = vector(&[1.0, 1.0, 1.0, -0.0]);
    assert_eq!(a.simd_eq(&b).to_array(), vec![true, false, false, true]);
    assert_eq!(a.simd_ne(&b).to_array(), vec![false, true, true, false]);
    assert_eq!(a.simd_lt(&b).to_array(), vec![false, false, false, false]);
    assert_eq!(a.simd_gt(&b).to_array(), vec![false, true, false, false]);
    assert_eq!(a.simd_le(&b).to_array(), vec![true, false, false, true]);
    assert_eq!(a.simd_ge(&b).to_array(), vec![true, true, false, true]);
}

#[test]
fn lane_wise_sign_ops() {
    let v = vector(&[1.5, -2.5, -0.0, f64::NAN]);
    let abs: Vec<u64> = v.abs().to_array().iter().map(|l| l.bits).collect();
    assert_eq!(
        abs,
        vec![
            1.5f64.to_bits(),
            2.5f64.to_bits(),
            0.0f64.to_bits(),
            f64::NAN.to_bits()
        ]
    );
    let v = vector(&[1.5, -2.5]);
    let neg: Vec<u64> = v.negate().to_array().iter().map(|l| l.bits).collect();
    assert_eq!(neg, vec![(-1.5f64).to_bits(), 2.5f64.to_bits()]);
    let v = vector(&[1.5, -2.5, f64::NAN]);
    let sig: Vec<u64> = v.signum().to_array().iter().map(|l| l.bits).collect();
    assert_eq!(
        sig,
        vec![1.0f64.to_bits(), (-1.0f64).to_bits(), f64::NAN.to_bits()]
    );
    let m = vector(&[1.0, 2.0]);
    let s = vector(&[-1.0, 1.0]);
    let cs: Vec<u64> = m.copysign(&s).to_array().iter().map(|l| l.bits).collect();
    assert_eq!(cs, vec![(-1.0f64).to_bits(), 2.0f64.to_bits()]);
}

#[test]
fn lane_wise_min_max_clamp() {
    let a = vector(&[1.0, f64::NAN, 5.0]);
    let b = vector(&[2.0, 3.0, f64::NAN]);
    let min: Vec<u64> = a.simd_min(&b).to_array().iter().map(|l| l.bits).collect();
    assert_eq!(min, vec![1.0f64.to_bits(), 3.0f64.to_bits(), 5.0f64.to_bits()]);
    let max: Vec<u64> = a.simd_max(&b).to_array().iter().map(|l| l.bits).collect();
    assert_eq!(max, vec![2.0f64.to_bits(), 3.0f64.to_bits(), 5.0f64.to_bits()]);
    let x = vector(&[0.5, -2.0, 7.0]);
    let lo = SimdReal64::splat(r(0.0), 3);
    let hi = SimdReal64::splat(r(5.0), 3);
    let cl: Vec<u64> = x.simd_clamp(&lo, &hi).to_array().iter().map(|l| l.bits).collect();
    assert_eq!(cl, vec![0.5f64.to_bits(), 0.0f64.to_bits(), 5.0f64.to_bits()]);
}

#[test]
fn reductions_skip_nan() {
    let v = vector(&[f64::NAN, 3.0, -1.0, 2.0]);
    assert_eq!(v.reduce_min().bits, (-1.0f64).to_bits());
    assert_eq!(v.reduce_max().bits, 3.0f64.to_bits());
    let all_nan = vector(&[f64::NAN, f64::NAN]);
    assert!(all_nan.reduce_min().is_nan());
    assert!(all_nan.reduce_max().is_nan());
}

#[test]
fn shuffles() {
    let v = vector(&[1.0, 2.0, 3.0, 4.0]);
    let rev: Vec<u64> = v.reverse().to_array().iter().map(|l| l.bits).collect();
    assert_eq!(
        rev,
        vec![
            4.0f64.to_bits(),
            3.0f64.to_bits(),
            2.0f64.to_bits(),
            1.0f64.to_bits()
        ]
    );
    let v = vector(&[1.0, 2.0, 3.0, 4.0]);
    let left: Vec<u64> = v.rotate_lanes_left(1).to_array().iter().map(|l| l.bits).collect();
    assert_eq!(
        left,
        vec![
            2.0f64.to_bits(),
            3.0f64.to_bits(),
            4.0f64.to_bits(),
            1.0f64.to_bits()
        ]
    );
    let v = vector(&[1.0, 2.0, 3.0, 4.0]);
    let right: Vec<u64> = v.rotate_lanes_right(1).to_array().iter().map(|l| l.bits).collect();
    assert_eq!(
        right,
        vec![
            4.0f64.to_bits(),
            1.0f64.to_bits(),
            2.0f64.to_bits(),
            3.0f64.to_bits()
        ]
    );
}

#[test]
fn gather_and_select() {
    let slice: Vec<Real64> = [10.0f64, 20.0, 30.0].iter().map(|&x| r(x)).collect();
    let or = vector(&[-1.0, -2.0, -3.0]);
    let idxs: Vec<usize> = vec![2, 9, 0];
    let g = SimdReal64::gather_or(&slice, &idxs, &or);
    let got: Vec<u64> = g.to_array().iter().map(|l| l.bits).collect();
    assert_eq!(
        got,
        vec![30.0f64.to_bits(), (-2.0f64).to_bits(), 10.0f64.to_bits()]
    );

    let enable = Mask { lanes: vec![true, true, false] };
    let or = vector(&[-1.0, -2.0, -3.0]);
    let g = SimdReal64::gather_select(&slice, &enable, &idxs, &or);
    let got: Vec<u64> = g.to_array().iter().map(|l| l.bits).collect();
    assert_eq!(
        got,
        vec![30.0f64.to_bits(), (-2.0f64).to_bits(), (-3.0f64).to_bits()]
    );

    let m = Mask { lanes: vec![true, false] };
    let t = vector(&[1.0, 2.0]);
    let f = vector(&[9.0, 8.0]);
    let s: Vec<u64> = SimdReal64::select(m, t, f).to_array().iter().map(|l| l.bits).collect();
    assert_eq!(s, vec![1.0f64.to_bits(), 8.0f64.to_bits()]);
}

#[test]
fn vector_construction() {
    let v = SimdReal64::splat(r(7.0), 3);
    assert_eq!(v.len(), 3);
    let v = v.insert(1, r(8.0));
    assert_eq!(v.get(1).bits, 8.0f64.to_bits());
    assert_eq!(v.get(0).bits, 7.0f64.to_bits());
    let slice: Vec<Real64> = [1.0f64, 2.0, 3.0].iter().map(|&x| r(x)).collect();
    let v = SimdReal64::from_slice(&slice, 2);
    assert_eq!(v.len(), 2);
    assert_eq!(v.get(1).bits, 2.0f64.to_bits());
}

#[test]
fn bits_roundtrip_lane_wise() {
    let v = vector(&[1.0, -0.0, f64::NAN]);
    let bits = v.to_bits();
    assert_eq!(
        bits.lanes,
        vec![1.0f64.to_bits(), (-0.0f64).to_bits(), f64::NAN.to_bits()]
    );
    let back = SimdReal64::from_bits(bits);
    let got: Vec<u64> = back.to_array().iter().map(|l| l.bits).collect();
    assert_eq!(
        got,
        vec![1.0f64.to_bits(), (-0.0f64).to_bits(), f64::NAN.to_bits()]
    );
}

#[test]
fn negate_where_mask() {
    let v = vector(&[1.0, 2.0, 3.0]);
    let m = Mask { lanes: vec![true, false, true] };
    let got: Vec<u64> = v.negate_where(&m).to_array().iter().map(|l| l.bits).collect();
    assert_eq!(
        got,
        vec![(-1.0f64).to_bits(), 2.0f64.to_bits(), (-3.0f64).to_bits()]
    );
}

#[test]
fn bits_vector_ops() {
    let a = SimdBits64::from_array(vec![5u64, 0, u64::MAX]);
    let b = SimdBits64::from_array(vec![7u64, 3, 1]);
    assert_eq!(a.saturating_add(&b).to_array(), vec![12u64, 3, u64::MAX]);
    assert_eq!(a.saturating_sub(&b).to_array(), vec![0u64, 0, u64::MAX - 1]);
    assert_eq!(a.abs_sub(&b).to_array(), vec![2u64, 3, u64::MAX - 1]);
    let a = SimdBits64::from_array(vec![5u64, 0, u64::MAX]);
    let b = SimdBits64::from_array(vec![7u64, 0, 1]);
    assert_eq!(a.simd_eq(&b).to_array(), vec![false, true, false]);
    assert_eq!(a.simd_lt(&b).to_array(), vec![true, false, false]);
    assert_eq!(a.simd_ge(&b).to_array(), vec![false, true, true]);
    let mut c = SimdBits64::splat(9u64, 2);
    c.set(1, 4);
    assert_eq!(c.get(1), 4);
    assert_eq!(c.len(), 2);
}

#[test]
fn mask_operations() {
    let m = Mask::splat(true, 3);
    assert!(m.all());
    assert!(m.any());
    let mut m = Mask::from_array(vec![false, false]);
    assert!(!m.any());
    assert!(!m.all());
    m.set(1, true);
    assert!(m.any());
    assert!(!m.all());
    assert!(m.test(1));
    assert!(!m.test(0));
    let f = Mask::flag(2, true, 4);
    assert_eq!(f.to_array(), vec![false, false, true, false]);
    let f = Mask::flag(0, false, 3);
    assert_eq!(f.to_array(), vec![false, true, true]);
    let empty = Mask::from_array(vec![]);
    assert!(empty.all());
    assert!(!empty.any());
}

#[test]
fn simd_real32_lanes() {
    let a = SimdReal32 {
        lanes: [1.0f32, f32::NAN].iter().map(|&x| Real32 { bits: x.to_bits() }).collect(),
    };
    let b = SimdReal32 {
        lanes: [1.0f32, 1.0].iter().map(|&x| Real32 { bits: x.to_bits() }).collect(),
    };
    let d = SimdReal32 {
        lanes: [0.0f32, f32::NAN].iter().map(|&x| Real32 { bits: x.to_bits() }).collect(),
    };
    let e = SimdReal32::splat(Real32 { bits: 0.0f32.to_bits() }, 2);
    let u = SimdBits32::splat(0u32, 2);
    let m = a.simd_approx_eq(&b, &d, &e, &u);
    assert_eq!(m.to_array(), vec![true, false]);
    assert_eq!(a.is_nan().to_array(), vec![false, true]);
}

#[test]
fn scatter_last_write_wins() {
    let v = vector(&[1.0, 2.0, 3.0]);
    let mut slice: Vec<Real64> = [0.0f64; 4].iter().map(|&x| r(x)).collect();
    let idxs: Vec<usize> = vec![1, 9, 1];
    v.scatter(&mut slice, &idxs);
    let got: Vec<u64> = slice.iter().map(|l| l.bits).collect();
    // Index 9 is out of bounds and writes nothing; lane 2 overwrites lane 0.
    assert_eq!(
        got,
        vec![
            0.0f64.to_bits(),
            3.0f64.to_bits(),
            0.0f64.to_bits(),
            0.0f64.to_bits()
        ]
    );
}

#[test]
fn scatter_select_masks_writes() {
    let v = vector(&[1.0, 2.0]);
    let mut slice: Vec<Real64> = [0.0f64; 3].iter().map(|&x| r(x)).collect();
    let idxs: Vec<usize> = vec![0, 2];
    let enable = Mask { lanes: vec![false, true] };
    v.scatter_select(&mut slice, &enable, &idxs);
    let got: Vec<u64> = slice.iter().map(|l| l.bits).collect();
    assert_eq!(
        got,
        vec![0.0f64.to_bits(), 0.0f64.to_bits(), 2.0f64.to_bits()]
    );
}

#[test]
fn swizzles() {
    let v = vector(&[10.0, 20.0, 30.0]);
    let s: Vec<u64> = v.swizzle(&vec![2, 0, 0, 1]).to_array().iter().map(|l| l.bits).collect();
    assert_eq!(
        s,
        vec![
            30.0f64.to_bits(),
            10.0f64.to_bits(),
            10.0f64.to_bits(),
            20.0f64.to_bits()
        ]
    );
    let w = vector(&[40.0, 50.0]);
    let v = vector(&[10.0, 20.0, 30.0]);
    let s: Vec<u64> = v.concat_swizzle(&w, &vec![4, 0]).to_array().iter().map(|l| l.bits).collect();
    assert_eq!(s, vec![50.0f64.to_bits(), 10.0f64.to_bits()]);
}

#[test]
fn interleave_round_trip() {
    let a = vector(&[0.0, 1.0, 2.0, 3.0]);
    let b = vector(&[4.0, 5.0, 6.0, 7.0]);
    let (x, y) = a.interleave(&b);
    let xs: Vec<u64> = x.to_array().iter().map(|l| l.bits).collect();
    let ys: Vec<u64> = y.to_array().iter().map(|l| l.bits).collect();
    assert_eq!(
        xs,
        vec![
            0.0f64.to_bits(),
            4.0f64.to_bits(),
            1.0f64.to_bits(),
            5.0f64.to_bits()
        ]
    );
    assert_eq!(
        ys,
        vec![
            2.0f64.to_bits(),
            6.0f64.to_bits(),
            3.0f64.to_bits(),
            7.0f64.to_bits()
        ]
    );
    let x = vector(&[0.0, 4.0, 1.0, 5.0]);
    let y = vector(&[2.0, 6.0, 3.0, 7.0]);
    let (back_a, back_b) = x.deinterleave(&y);
    let ba: Vec<u64> = back_a.to_array().iter().map(|l| l.bits).collect();
    let bb: Vec<u64> = back_b.to_array().iter().map(|l| l.bits).collect();
    assert_eq!(
        ba,
        vec![
            0.0f64.to_bits(),
            1.0f64.to_bits(),
            2.0f64.to_bits(),
            3.0f64.to_bits()
        ]
    );
    assert_eq!(
        bb,
        vec![
            4.0f64.to_bits(),
            5.0f64.to_bits(),
            6.0f64.to_bits(),
            7.0f64.to_bits()
        ]
    );
}

#[test]
fn gather_or_default_zeros() {
    let slice: Vec<Real64> = [10.0f64, 20.0].iter().map(|&x| r(x)).collect();
    let idxs: Vec<usize> = vec![1, 5];
    let g = SimdReal64::gather_or_default(&slice, &idxs);
    let got: Vec<u64> = g.to_array().iter().map(|l| l.bits).collect();
    assert_eq!(got, vec![20.0f64.to_bits(), 0.0f64.to_bits()]);
}

#[test]
fn as_array_borrows_lanes() {
    let v = vector(&[1.0, 2.0]);
    assert_eq!(v.as_array().len(), 2);
    assert_eq!(v.as_array()[0].bits, 1.0f64.to_bits());
}
