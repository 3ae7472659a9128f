//! The 64-bit approximate comparison against native IEEE-754 arithmetic.

use lav::real64::Real64;
use lav::scalar::Real;
use lav::ApproxEq;

fn r(x: f64) -> Real64 {
    Real64 { bits: x.to_bits() }
}

fn approx(a: f64, b: f64, epsilon: f64, ulp: u64) -> bool {
    r(a).approx_eq(&r(b), &r(a - b), &r(epsilon), &ulp)
}

fn approx_ne(a: f64, b: f64, epsilon: f64, ulp: u64) -> bool {
    r(a).approx_ne(&r(b), &r(a - b), &r(epsilon), &ulp)
}

fn approx_checked(a: f64, b: f64, epsilon: f64, ulp: u64) -> bool {
    r(a).approx_eq_sign_checked(&r(b), &r(a - b), &r(epsilon), &ulp)
}

#[test]
fn reflexive_finite() {
    assert!(approx(1.5, 1.5, 0.0, 0));
    assert!(approx(0.0, 0.0, 0.0, 0));
    assert!(approx(-2.75e300, -2.75e300, 0.0, 0));
    assert!(approx(5e-324, 5e-324, 0.0, 0));
}

#[test]
fn reflexive_nan_fails() {
    assert!(!approx(f64::NAN, f64::NAN, 0.0, 0));
    assert!(!approx(f64::NAN, f64::NAN, 1.0, 1000));
}

#[test]
fn reflexive_infinity() {
    // The epsilon path sees NaN (inf - inf), the ULP path distance zero.
    assert!(approx(f64::INFINITY, f64::INFINITY, 0.0, 0));
    assert!(approx(f64::NEG_INFINITY, f64::NEG_INFINITY, 0.0, 0));
}

#[test]
fn symmetry() {
    let cases: [(f64, f64, f64, u64); 5] = [
        (1.0, 1.5, 0.25, 2),
        (1.0, 1.5, 1.0, 0),
        (-3.0, 3.0, 0.5, 9),
        (0.0, -0.0, 0.0, 0),
        (2.0, f64::NAN, 1.0, 4),
    ];
    for (a, b, e, u) in cases {
        assert_eq!(
            r(a).approx_eq(&r(b), &r(a - b), &r(e), &u),
            r(b).approx_eq(&r(a), &r(b - a), &r(e), &u),
        );
    }
}

#[test]
fn epsilon_monotonic() {
    assert!(approx(1.0, 1.25, 0.25, 0));
    assert!(approx(1.0, 1.25, 0.5, 0));
    assert!(approx(1.0, 1.25, f64::INFINITY, 0));
    assert!(!approx(1.0, 1.25, 0.2, 0));
}

#[test]
fn ulp_monotonic() {
    let up = f64::from_bits(1.0f64.to_bits() + 1);
    assert!(approx(1.0, up, 0.0, 1));
    assert!(approx(1.0, up, 0.0, 2));
    assert!(approx(1.0, up, 0.0, u64::MAX));
}

#[test]
fn negation_consistency() {
    let cases: [(f64, f64, f64, u64); 4] = [
        (1.0, 1.5, 0.25, 2),
        (0.0, -0.0, 0.0, 0),
        (2.0, f64::NAN, 1.0, 4),
        (7.5, 7.5, 0.0, 0),
    ];
    for (a, b, e, u) in cases {
        assert_eq!(approx_ne(a, b, e, u), !approx(a, b, e, u));
    }
}

#[test]
fn signed_zero() {
    assert!(approx(0.0, -0.0, 0.0, 0));
    assert!(approx(-0.0, 0.0, 0.0, 0));
    assert!(approx_checked(0.0, -0.0, 0.0, 0));
}

#[test]
fn nan_absorption() {
    assert!(!approx(1.0, f64::NAN, 1.0, 1000));
    assert!(!approx(f64::NAN, 1.0, 1.0, 1000));
    assert!(!approx_checked(1.0, f64::NAN, 1.0, 1000));
}

#[test]
fn adjacent_representable_rescue() {
    let x = 1.0f64;
    let up = f64::from_bits(x.to_bits() + 1);
    assert!(approx(x, up, 0.0, 1));
    assert!(!approx(x, up, 0.0, 0));
    // The documented scenario: one ULP above one.
    assert_eq!(up, 1.0 + (2.0f64).powi(-52));
    // A negative pair one step apart.
    let y = -2.0f64;
    let toward_zero = f64::from_bits(y.to_bits() - 1);
    assert!(approx(y, toward_zero, 0.0, 1));
    assert!(!approx(y, toward_zero, 0.0, 0));
}

#[test]
fn sign_gate_difference() {
    // Opposite-signed patterns a step apart in raw bits: the plain
    // reading lets the ULP path pass, the gated one does not.
    let a = f64::NEG_INFINITY; // 0xFFF0_0000_0000_0000
    let b = f64::from_bits(f64::NEG_INFINITY.to_bits() - 1);
    assert_eq!(a.is_sign_negative(), b.is_sign_negative());
    let c = f64::from_bits(0x8000_0000_0000_0000); // -0.0
    let d = f64::from_bits(0x7FF0_0000_0000_0000); // +inf
    assert!(!approx_checked(c, d, 0.0, u64::MAX));
    assert!(approx(c, d, 0.0, u64::MAX));
}

#[test]
fn negative_epsilon_is_permissive_only_at_exact() {
    assert!(!approx(1.0, 1.0 + 2e-16, -1.0, 0));
    // Equal values still pass through the ULP path.
    assert!(approx(1.0, 1.0, -1.0, 0));
}

#[test]
fn epsilon_rescues_wide_pairs() {
    // Far apart in ULPs, close absolutely.
    assert!(approx(1.0, 1.0 + 1e-10, 1e-9, 0));
    assert!(!approx(1.0, 1.0 + 1e-8, 1e-9, 0));
}
