//! The circular functions: exact quarter-turn values, ranges, bearings.

use jointsim::fixed::SCALE;
use jointsim::trig::HALF_PI;
use jointsim::trig::PI;
use jointsim::trig::QUARTER_PI;
use jointsim::trig::TWO_PI;
use jointsim::trig::atan2_fp;
use jointsim::trig::cos_fp;
use jointsim::trig::sin_fp;

#[test]
fn sine_exact_at_quarter_turns() {
    assert_eq!(sin_fp(0), 0);
    assert_eq!(sin_fp(HALF_PI), SCALE);
    assert_eq!(sin_fp(PI), 0);
    assert_eq!(sin_fp(PI + HALF_PI), -SCALE);
    assert_eq!(sin_fp(TWO_PI), 0);
    assert_eq!(sin_fp(-HALF_PI), -SCALE);
}

#[test]
fn cosine_exact_at_quarter_turns() {
    assert_eq!(cos_fp(0), SCALE);
    assert_eq!(cos_fp(HALF_PI), 0);
    assert_eq!(cos_fp(PI), -SCALE);
    assert_eq!(cos_fp(-PI), -SCALE);
    assert_eq!(cos_fp(TWO_PI), SCALE);
}

#[test]
fn sine_stays_in_range_and_close() {
    // sin(pi/4) is about 0.7071; the approximation is within 0.003
    let s = sin_fp(QUARTER_PI);
    let expect = 46341; // 0.7071 in fixed point
    assert!((s - expect).abs() < 200, "sin(pi/4) was {s}");
    for a in [-300000i64, -77777, -1, 1, 12345, 399999] {
        let v = sin_fp(a);
        assert!(-SCALE <= v && v <= SCALE);
    }
}

#[test]
fn bearings_on_the_axes() {
    assert_eq!(atan2_fp(0, 1000), 0);
    assert_eq!(atan2_fp(1000, 0), HALF_PI);
    assert_eq!(atan2_fp(0, -1000), PI);
    assert_eq!(atan2_fp(-1000, 0), -HALF_PI);
    assert_eq!(atan2_fp(0, 0), 0);
}

#[test]
fn bearing_on_the_diagonal() {
    assert_eq!(atan2_fp(1000, 1000), QUARTER_PI);
    assert_eq!(atan2_fp(-1000, 1000), -QUARTER_PI);
    assert_eq!(atan2_fp(1000, -1000), PI - QUARTER_PI);
}
