//! Exact expected values for the fixed-point helpers.

use pong::numeric::{isqrt_u64, phi_micro_i64, sin_micro_i64, tdiv_i64};

#[test]
fn truncating_division_rounds_toward_zero() {
    assert_eq!(tdiv_i64(7, 2), 3);
    assert_eq!(tdiv_i64(-7, 2), -3);
    assert_eq!(tdiv_i64(6, 3), 2);
    assert_eq!(tdiv_i64(-6, 3), -2);
    assert_eq!(tdiv_i64(0, 5), 0);
    assert_eq!(tdiv_i64(-1, 1000), 0);
}

#[test]
fn integer_square_root_exact_values() {
    assert_eq!(isqrt_u64(0), 0);
    assert_eq!(isqrt_u64(1), 1);
    assert_eq!(isqrt_u64(3), 1);
    assert_eq!(isqrt_u64(4), 2);
    assert_eq!(isqrt_u64(99), 9);
    assert_eq!(isqrt_u64(100), 10);
    // the speed of a ball moving (1500, 900) milli-pixels per tick
    assert_eq!(isqrt_u64(1500 * 1500 + 900 * 900), 1749);
}

#[test]
fn deflection_angle_spans_the_quarter_circle() {
    assert_eq!(phi_micro_i64(0), 0);
    assert_eq!(phi_micro_i64(1000), 785398);
    assert_eq!(phi_micro_i64(-1000), -785398);
    assert_eq!(phi_micro_i64(500), 392699);
}

#[test]
fn cubic_sine_exact_values() {
    assert_eq!(sin_micro_i64(0), 0);
    // 785398 - 785398^3 / 6e12 = 785398 - 80745
    assert_eq!(sin_micro_i64(785398), 704653);
    assert_eq!(sin_micro_i64(-785398), -704653);
}
