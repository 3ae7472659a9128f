//! Classification, sign handling and ordering of the scalars against
//! the native operations.

use core::cmp::Ordering;
use lav::real32::Real32;
use lav::real64::Real64;
use lav::scalar::{Category, Real};

fn r(x: f64) -> Real64 {
    Real64 { bits: x.to_bits() }
}

#[test]
fn classification_matches_native() {
    let values = [
        0.0f64,
        -0.0,
        1.0,
        -1.0,
        5e-324,
        -5e-324,
        f64::MAX,
        f64::MIN_POSITIVE,
        f64::INFINITY,
        f64::NEG_INFINITY,
        f64::NAN,
        1.5e-310,
    ];
    for x in values {
        let v = r(x);
        assert_eq!(v.is_nan(), x.is_nan());
        assert_eq!(v.is_infinite(), x.is_infinite());
        assert_eq!(v.is_finite(), x.is_finite());
        assert_eq!(v.is_subnormal(), x.is_subnormal());
        assert_eq!(v.is_normal(), x.is_normal());
        assert_eq!(v.is_sign_negative(), x.is_sign_negative());
        assert_eq!(v.is_sign_positive(), x.is_sign_positive());
    }
}

#[test]
fn classify_each_class() {
    assert_eq!(r(f64::NAN).classify(), Category::Nan);
    assert_eq!(r(f64::INFINITY).classify(), Category::Infinite);
    assert_eq!(r(f64::NEG_INFINITY).classify(), Category::Infinite);
    assert_eq!(r(0.0).classify(), Category::Zero);
    assert_eq!(r(-0.0).classify(), Category::Zero);
    assert_eq!(r(5e-324).classify(), Category::Subnormal);
    assert_eq!(r(1.0).classify(), Category::Normal);
}

#[test]
fn bit_roundtrip() {
    for x in [1.0f64, -0.0, f64::NAN, f64::INFINITY, 5e-324] {
        let v = <Real64 as Real>::from_bits(x.to_bits());
        assert_eq!(v.to_bits(), x.to_bits());
    }
}

#[test]
fn sign_operations_match_native() {
    let values = [1.5f64, -1.5, 0.0, -0.0, f64::INFINITY, f64::NEG_INFINITY, 5e-324];
    for x in values {
        assert_eq!(r(x).abs().bits, x.abs().to_bits());
        assert_eq!(r(x).negate().bits, (-x).to_bits());
        assert_eq!(r(x).signum().bits, x.signum().to_bits());
        for s in values {
            assert_eq!(r(x).copysign(r(s)).bits, x.copysign(s).to_bits());
        }
    }
}

#[test]
fn signum_of_nan_is_nan() {
    assert_eq!(r(f64::NAN).signum().bits, f64::NAN.to_bits());
}

#[test]
fn comparisons_match_native() {
    let values = [0.0f64, -0.0, 1.0, -1.0, 2.5, f64::INFINITY, f64::NEG_INFINITY, f64::NAN];
    for a in values {
        for b in values {
            assert_eq!(r(a).eq_value(&r(b)), a == b, "eq {a} {b}");
            assert_eq!(r(a).lt(&r(b)), a < b, "lt {a} {b}");
            assert_eq!(r(a).le(&r(b)), a <= b, "le {a} {b}");
            assert_eq!(r(a).gt(&r(b)), a > b, "gt {a} {b}");
            assert_eq!(r(a).ge(&r(b)), a >= b, "ge {a} {b}");
            assert_eq!(r(a).total_cmp(&r(b)), a.total_cmp(&b), "total {a} {b}");
        }
    }
}

#[test]
fn total_cmp_zeros_and_nans() {
    assert_eq!(r(-0.0).total_cmp(&r(0.0)), Ordering::Less);
    assert_eq!(r(f64::NAN).total_cmp(&r(f64::INFINITY)), Ordering::Greater);
    let neg_nan = f64::from_bits(f64::NAN.to_bits() | 0x8000_0000_0000_0000);
    assert_eq!(r(neg_nan).total_cmp(&r(f64::NEG_INFINITY)), Ordering::Less);
}

#[test]
fn min_max_with_nan() {
    assert_eq!(r(f64::NAN).min(r(2.0)).bits, 2.0f64.to_bits());
    assert_eq!(r(2.0).min(r(f64::NAN)).bits, 2.0f64.to_bits());
    assert_eq!(r(1.0).min(r(2.0)).bits, 1.0f64.to_bits());
    assert_eq!(r(f64::NAN).max(r(2.0)).bits, 2.0f64.to_bits());
    assert_eq!(r(1.0).max(r(2.0)).bits, 2.0f64.to_bits());
    assert_eq!(r(1.0).min(r(2.0)).bits, 1.0f64.min(2.0).to_bits());
    assert_eq!(r(-3.0).max(r(2.0)).bits, (-3.0f64).max(2.0).to_bits());
}

#[test]
fn clamp_matches_native() {
    for x in [0.5f64, -2.0, 7.0, f64::NAN] {
        let mine = r(x).clamp(r(0.0), r(5.0)).bits;
        let native = x.clamp(0.0, 5.0).to_bits();
        assert_eq!(mine, native, "clamp {x}");
    }
}

#[test]
fn constants_match_native() {
    assert_eq!(Real64::zero().bits, 0.0f64.to_bits());
    assert_eq!(Real64::neg_zero().bits, (-0.0f64).to_bits());
    assert_eq!(Real64::one().bits, 1.0f64.to_bits());
    assert_eq!(Real64::neg_one().bits, (-1.0f64).to_bits());
    assert_eq!(Real64::nan().bits, f64::NAN.to_bits());
    assert_eq!(Real64::infinity().bits, f64::INFINITY.to_bits());
    assert_eq!(Real64::neg_infinity().bits, f64::NEG_INFINITY.to_bits());
    assert_eq!(Real64::max_finite().bits, f64::MAX.to_bits());
    assert_eq!(Real64::min_positive().bits, f64::MIN_POSITIVE.to_bits());
    assert_eq!(Real64::epsilon().bits, f64::EPSILON.to_bits());
}

#[test]
fn constants_match_native_32() {
    assert_eq!(Real32::one().bits, 1.0f32.to_bits());
    assert_eq!(Real32::nan().bits, f32::NAN.to_bits());
    assert_eq!(Real32::infinity().bits, f32::INFINITY.to_bits());
    assert_eq!(Real32::max_finite().bits, f32::MAX.to_bits());
    assert_eq!(Real32::min_positive().bits, f32::MIN_POSITIVE.to_bits());
    assert_eq!(Real32::epsilon().bits, f32::EPSILON.to_bits());
}

#[test]
fn scalar_ops_match_native_32() {
    let values = [1.5f32, -1.5, 0.0, -0.0, f32::INFINITY, f32::NAN, 1e-44];
    for x in values {
        let v = Real32 { bits: x.to_bits() };
        assert_eq!(v.is_nan(), x.is_nan());
        assert_eq!(v.is_subnormal(), x.is_subnormal());
        assert_eq!(v.abs().bits, x.abs().to_bits());
        assert_eq!(v.negate().bits, (-x).to_bits());
        assert_eq!(v.signum().bits, x.signum().to_bits());
    }
    for a in values {
        for b in values {
            let va = Real32 { bits: a.to_bits() };
            let vb = Real32 { bits: b.to_bits() };
            assert_eq!(va.lt(&vb), a < b);
            assert_eq!(va.total_cmp(&vb), a.total_cmp(&b));
        }
    }
}
