//! Exact expected values for the Q16.16 scalar operations.

use processing::fixed_point::{fx_add, fx_div, fx_from_int, fx_mul, fx_neg, fx_sub};

/// The reference for multiplication: widen, scale down truncating toward
/// zero, clamp.
fn mul_ref(a: i32, b: i32) -> i32 {
    let p = a as i64 * b as i64;
    let q = if p >= 0 { p / 65536 } else { -((-p) / 65536) };
    q.clamp(i32::MIN as i64, i32::MAX as i64) as i32
}

#[test]
fn mul_matches_float_on_small_values() {
    // 1.5 * 2.0 == 3.0 exactly.
    assert_eq!(fx_mul(98304, 131072), 196608);
    let approx = fx_mul(19661, 32768) as f64 / 65536.0;
    assert!((approx - 0.3 * 0.5).abs() < 1e-4);
}

#[test]
fn mul_truncates_toward_zero() {
    // 0.00001 * 0.5 rounds toward zero from either sign.
    assert_eq!(fx_mul(1, 32768), 0);
    assert_eq!(fx_mul(-1, 32768), 0);
    assert_eq!(fx_mul(3, 32768), 1);
    assert_eq!(fx_mul(-3, 32768), -1);
    for &a in &[0i32, 1, -1, 65536, -65536, 123456, -98765, i32::MAX, i32::MIN] {
        for &b in &[0i32, 1, -1, 32768, -32768, 65536, 7777777] {
            assert_eq!(fx_mul(a, b), mul_ref(a, b), "a={a} b={b}");
        }
    }
}

#[test]
fn mul_saturates() {
    assert_eq!(fx_mul(i32::MAX, i32::MAX), i32::MAX);
    assert_eq!(fx_mul(i32::MAX, i32::MIN), i32::MIN);
    assert_eq!(fx_mul(i32::MIN, i32::MIN), i32::MAX);
}

#[test]
fn div_exact_and_saturating() {
    // 1.0 / 2.0 == 0.5
    assert_eq!(fx_div(65536, 131072), 32768);
    // x / 1.0 == x
    assert_eq!(fx_div(-39322, 65536), -39322);
    // division by zero saturates by the dividend's sign
    assert_eq!(fx_div(5, 0), i32::MAX);
    assert_eq!(fx_div(-5, 0), i32::MIN);
    assert_eq!(fx_div(0, 0), i32::MAX);
}

#[test]
fn add_sub_neg_saturate() {
    assert_eq!(fx_add(65536, 65536), 131072);
    assert_eq!(fx_add(i32::MAX, 1), i32::MAX);
    assert_eq!(fx_sub(i32::MIN, 1), i32::MIN);
    assert_eq!(fx_neg(i32::MIN), i32::MAX);
    assert_eq!(fx_neg(5), -5);
}

#[test]
fn from_int_scales() {
    assert_eq!(fx_from_int(3), 196608);
    assert_eq!(fx_from_int(-2), -131072);
    assert_eq!(fx_from_int(100000), i32::MAX);
}
