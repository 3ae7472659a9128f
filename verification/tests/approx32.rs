//! The 32-bit approximate comparison against native IEEE-754 arithmetic.

use lav::real32::Real32;
use lav::scalar::Real;
use lav::ApproxEq;

fn r(x: f32) -> Real32 {
    Real32 { bits: x.to_bits() }
}

fn approx(a: f32, b: f32, epsilon: f32, ulp: u32) -> bool {
    r(a).approx_eq(&r(b), &r(a - b), &r(epsilon), &ulp)
}

#[test]
fn reflexive_finite_32() {
    assert!(approx(1.5, 1.5, 0.0, 0));
    assert!(approx(-2.75e30, -2.75e30, 0.0, 0));
}

#[test]
fn reflexive_nan_fails_32() {
    assert!(!approx(f32::NAN, f32::NAN, 0.0, 0));
    assert!(!approx(f32::NAN, f32::NAN, 1.0, 1000));
}

#[test]
fn signed_zero_32() {
    assert!(approx(0.0, -0.0, 0.0, 0));
}

#[test]
fn nan_absorption_32() {
    assert!(!approx(1.0, f32::NAN, 1.0, 1000));
}

#[test]
fn adjacent_representable_rescue_32() {
    let x = 1.0f32;
    let up = f32::from_bits(x.to_bits() + 1);
    assert!(approx(x, up, 0.0, 1));
    assert!(!approx(x, up, 0.0, 0));
    assert_eq!(up, 1.0 + (2.0f32).powi(-23));
}

#[test]
fn epsilon_path_32() {
    assert!(approx(1.0, 1.25, 0.25, 0));
    assert!(!approx(1.0, 1.25, 0.2, 0));
    assert!(approx(1.0, 1.25, 0.5, 0));
}

#[test]
fn symmetry_32() {
    let cases: [(f32, f32, f32, u32); 3] = [
        (1.0, 1.5, 0.25, 2),
        (0.0, -0.0, 0.0, 0),
        (2.0, f32::NAN, 1.0, 4),
    ];
    for (a, b, e, u) in cases {
        assert_eq!(
            r(a).approx_eq(&r(b), &r(a - b), &r(e), &u),
            r(b).approx_eq(&r(a), &r(b - a), &r(e), &u),
        );
    }
}
