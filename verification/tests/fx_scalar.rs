use std::f64::consts::{FRAC_PI_2, FRAC_PI_4, FRAC_PI_6, PI};

use raytracer::fx::{fx_add, fx_approx, fx_div, fx_floor, fx_mul, fx_powi, fx_sqrt, EPS, ONE};
use raytracer::trig::{fx_cos, fx_sin, fx_tan};

fn fx(v: f64) -> i64 {
    (v * 10_000_000_000_000.0).round() as i64
}

fn ap(a: i64, e: f64) -> bool {
    fx_approx(a, fx(e))
}

#[test]
fn scalar_arithmetic_is_exact_on_clean_values() {
    assert_eq!(fx_add(fx(1.5), fx(2.25)), fx(3.75));
    assert_eq!(fx_mul(fx(1.5), fx(2.0)), fx(3.0));
    assert_eq!(fx_div(fx(3.0), fx(2.0)), fx(1.5));
    assert_eq!(fx_sqrt(fx(4.0)), fx(2.0));
    assert_eq!(fx_sqrt(fx(2.25)), fx(1.5));
    assert_eq!(fx_powi(fx(2.0), 10), fx(1024.0));
}

#[test]
fn scalar_saturation_is_total() {
    assert_eq!(fx_add(i64::MAX, i64::MAX), i64::MAX);
    assert_eq!(fx_mul(i64::MAX, i64::MAX), i64::MAX);
    assert_eq!(fx_mul(i64::MAX, i64::MIN), i64::MIN);
}

#[test]
fn floor_rounds_toward_negative_infinity() {
    assert_eq!(fx_floor(fx(1.7)), fx(1.0));
    assert_eq!(fx_floor(fx(-1.2)), fx(-2.0));
    assert_eq!(fx_floor(fx(3.0)), fx(3.0));
}

#[test]
fn trigonometry_matches_the_circle_within_tolerance() {
    assert!(ap(fx_sin(0), 0.0));
    assert!(ap(fx_sin(fx(FRAC_PI_2)), 1.0));
    assert!(ap(fx_sin(fx(PI)), 0.0));
    assert!(ap(fx_sin(fx(FRAC_PI_6)), 0.5));
    assert!(ap(fx_cos(0), 1.0));
    assert!(ap(fx_cos(fx(PI)), -1.0));
    assert!(ap(fx_cos(fx(FRAC_PI_4)), FRAC_PI_4.cos()));
    assert!(ap(fx_tan(fx(FRAC_PI_4)), 1.0));
    assert!(ap(fx_sin(fx(-FRAC_PI_2)), -1.0));
    assert!(ap(fx_cos(fx(7.0)), 7.0_f64.cos()));
    assert!(ap(fx_sin(fx(-7.0)), (-7.0_f64).sin()));
}

#[test]
fn approximate_comparison_uses_the_shared_tolerance() {
    assert!(fx_approx(fx(1.0), fx(1.0) + EPS));
    assert!(!fx_approx(fx(1.0), fx(1.0) + EPS + 1));
    assert!(fx_approx(ONE, fx(1.0)));
}
