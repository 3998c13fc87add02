//! The fixed-point core: exact values, saturation, square roots, powers.

use jointsim::fixed::FP_MAX;
use jointsim::fixed::SCALE;
use jointsim::fixed::add_fp;
use jointsim::fixed::div_fp;
use jointsim::fixed::hypot_fp;
use jointsim::fixed::isqrt_u128;
use jointsim::fixed::mul_fp;
use jointsim::fixed::muldiv_fp;
use jointsim::fixed::pow_unit_fp;
use jointsim::fixed::sub_fp;
use jointsim::fixed::wavg_fp;

#[test]
fn mul_exact_units() {
    // 3.0 * 2.0 == 6.0
    assert_eq!(mul_fp(3 * SCALE, 2 * SCALE), 6 * SCALE);
    // 0.5 * 0.5 == 0.25
    assert_eq!(mul_fp(SCALE / 2, SCALE / 2), SCALE / 4);
    // sign handling truncates toward zero
    assert_eq!(mul_fp(-3 * SCALE, 2 * SCALE), -6 * SCALE);
    assert_eq!(mul_fp(-1, 1), 0);
}

#[test]
fn div_exact_units() {
    // 1.0 / 2.0 == 0.5
    assert_eq!(div_fp(SCALE, 2 * SCALE), SCALE / 2);
    // 6.0 / 2.0 == 3.0
    assert_eq!(div_fp(6 * SCALE, 2 * SCALE), 3 * SCALE);
    assert_eq!(div_fp(-SCALE, 2 * SCALE), -SCALE / 2);
}

#[test]
fn addition_saturates() {
    assert_eq!(add_fp(FP_MAX, FP_MAX), FP_MAX);
    assert_eq!(sub_fp(-FP_MAX, FP_MAX), -FP_MAX);
    assert_eq!(add_fp(1000, -250), 750);
    assert_eq!(mul_fp(FP_MAX, FP_MAX), FP_MAX);
}

#[test]
fn isqrt_exact() {
    assert_eq!(isqrt_u128(0), 0);
    assert_eq!(isqrt_u128(1), 1);
    assert_eq!(isqrt_u128(3), 1);
    assert_eq!(isqrt_u128(4), 2);
    assert_eq!(isqrt_u128(1_000_000), 1000);
    assert_eq!(isqrt_u128(u128::from(u64::MAX)), 4294967295);
}

#[test]
fn hypot_pythagorean_triple() {
    // a 3-4-5 triangle is exact in fixed point
    assert_eq!(hypot_fp(3 * SCALE, 4 * SCALE), 5 * SCALE);
    assert_eq!(hypot_fp(-3 * SCALE, 4 * SCALE), 5 * SCALE);
    assert_eq!(hypot_fp(0, -7 * SCALE), 7 * SCALE);
    assert_eq!(hypot_fp(0, 0), 0);
}

#[test]
fn muldiv_momentum_fraction() {
    // 1000 * m / (2 m) == 500 whatever the mass
    assert_eq!(muldiv_fp(1000, 3 * SCALE, 6 * SCALE), 500);
    assert_eq!(muldiv_fp(-1000, 3 * SCALE, 6 * SCALE), -500);
}

#[test]
fn weighted_average_between_points() {
    // equal masses: the midpoint
    assert_eq!(wavg_fp(0, SCALE, 10 * SCALE, SCALE, 2 * SCALE), 5 * SCALE);
    // all the mass on one side: that side
    assert_eq!(wavg_fp(0, 0, 10 * SCALE, SCALE, SCALE), 10 * SCALE);
}

#[test]
fn powers_of_unit_coefficients() {
    assert_eq!(pow_unit_fp(SCALE / 2, 0), SCALE);
    assert_eq!(pow_unit_fp(SCALE / 2, 1), SCALE / 2);
    assert_eq!(pow_unit_fp(SCALE / 2, 2), SCALE / 4);
    assert_eq!(pow_unit_fp(SCALE, 10), SCALE);
    assert_eq!(pow_unit_fp(0, 3), 0);
}
