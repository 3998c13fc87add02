//! Fixed-point circular functions.
//!
//! Angles are Q47.16 radians. `sin_fp` uses Bhaskara's rational
//! approximation, which is exact at every multiple of a quarter turn, so
//! axis-aligned motion suffers no rounding at all. `atan2_fp` reduces to the
//! first octant and applies a linear-corrected arctangent. Every function is
//! pinned exactly by a spec twin and bounded by its mathematical range.

use vstd::prelude::*;
use vstd::arithmetic::div_mod::lemma_div_is_ordered;
use vstd::arithmetic::div_mod::lemma_div_multiples_vanish;
use vstd::arithmetic::div_mod::lemma_div_pos_is_pos;
use crate::fixed::FP_MAX;
use crate::fixed::SCALE;
use crate::fixed::fp_in_range;
use crate::fixed::lemma_mul_bounds;

verus! {

/// A half turn in Q47.16 radians (chosen divisible by four).
pub const PI: i64 = 205888;

/// A quarter turn.
pub const HALF_PI: i64 = 102944;

/// An eighth of a turn.
pub const QUARTER_PI: i64 = 51472;

/// A full turn; exactly `2 * PI`.
pub const TWO_PI: i64 = 411776;

/// The correction coefficient of the arctangent approximation (0.273).
pub const ATAN_COEFF: i64 = 17891;

/// Angles the circular functions accept: the saturation range with one turn
/// of slack, so a freshly composed angle can be shifted before reduction.
pub open spec fn angle_in_range(x: int) -> bool {
    -(FP_MAX + TWO_PI) <= x <= FP_MAX + TWO_PI
}

/// Bhaskara's sine approximation on `[0, PI]`, scaled to `[0, SCALE]`.
pub open spec fn spec_bhaskara(x: int) -> int {
    let t = x * (PI - x);
    (16 * t * (SCALE as int)) / (5 * (PI as int) * (PI as int) - 4 * t)
}

/// What `sin_fp` returns: the angle folded into `[0, TWO_PI)`, the first
/// half turn positive, the second negative.
pub open spec fn spec_sin(x: int) -> int {
    let r = x % (TWO_PI as int);
    if r <= PI {
        spec_bhaskara(r)
    } else {
        -spec_bhaskara(r - PI)
    }
}

/// What `cos_fp` returns: the sine a quarter turn ahead.
pub open spec fn spec_cos(x: int) -> int {
    spec_sin(x + HALF_PI)
}

/// The first-octant arctangent approximation: `z` is a slope in
/// `[0, SCALE]`, the result an angle in `[0, QUARTER_PI]`, exact at both
/// ends.
pub open spec fn spec_atan_frac(z: int) -> int {
    (z * ((QUARTER_PI as int) * (SCALE as int) + (ATAN_COEFF as int) * ((SCALE as int) - z))) / (
    (SCALE as int) * (SCALE as int))
}

/// What `atan2_fp` returns: the bearing of the point `(x, y)` in
/// `[-PI, PI]`, built from the first-octant arctangent by symmetry.
pub open spec fn spec_atan2(y: int, x: int) -> int {
    let ax = if x < 0 { -x } else { x };
    let ay = if y < 0 { -y } else { y };
    let base = if ax >= ay {
        if ax == 0 {
            0
        } else {
            spec_atan_frac(ay * (SCALE as int) / ax)
        }
    } else {
        (HALF_PI as int) - spec_atan_frac(ax * (SCALE as int) / ay)
    };
    if x >= 0 {
        if y >= 0 {
            base
        } else {
            -base
        }
    } else {
        if y >= 0 {
            (PI as int) - base
        } else {
            base - (PI as int)
        }
    }
}

/// Folds an angle into `[0, TWO_PI)`.
fn angle_mod(x: i64) -> (r: i64)
    requires
        angle_in_range(x as int),
    ensures
        r as int == (x as int) % (TWO_PI as int),
        0 <= r < TWO_PI,
{
    let m: i64 = x % TWO_PI;
    if m < 0 {
        m + TWO_PI
    } else {
        m
    }
}

fn bhaskara(x: i64) -> (r: i64)
    requires
        0 <= x <= PI,
    ensures
        r as int == spec_bhaskara(x as int),
        0 <= r <= SCALE,
{
    proof {
        assert(0 <= 4 * ((x as int) * ((PI as int) - x as int)) <= (PI as int) * (PI as int))
            by (nonlinear_arith)
            requires
                0 <= x as int <= PI as int,
        ;
    }
    let xi: i128 = x as i128;
    let t: i128 = xi * ((PI as i128) - xi);
    let num: i128 = 16 * t * (SCALE as i128);
    let den: i128 = 5 * (PI as i128) * (PI as i128) - 4 * t;
    let q: i128 = num / den;
    proof {
        let numi = num as int;
        let deni = den as int;
        lemma_div_pos_is_pos(numi, deni);
        lemma_div_is_ordered(numi, deni * (SCALE as int), deni);
        lemma_div_multiples_vanish(SCALE as int, deni);
    }
    q as i64
}

/// The sine of a Q47.16 angle, in `[-SCALE, SCALE]`.
pub fn sin_fp(x: i64) -> (r: i64)
    requires
        angle_in_range(x as int),
    ensures
        r as int == spec_sin(x as int),
        -SCALE <= r <= SCALE,
{
    let m = angle_mod(x);
    if m <= PI {
        bhaskara(m)
    } else {
        let b = bhaskara(m - PI);
        -b
    }
}

/// The cosine of a Q47.16 angle, in `[-SCALE, SCALE]`.
pub fn cos_fp(x: i64) -> (r: i64)
    requires
        fp_in_range(x as int),
    ensures
        r as int == spec_cos(x as int),
        -SCALE <= r <= SCALE,
{
    sin_fp(x + HALF_PI)
}

fn atan_frac(z: i64) -> (r: i64)
    requires
        0 <= z <= SCALE,
    ensures
        r as int == spec_atan_frac(z as int),
        0 <= r <= QUARTER_PI,
{
    proof {
        lemma_mul_bounds(
            z as int,
            (QUARTER_PI as int) * (SCALE as int) + (ATAN_COEFF as int) * ((SCALE as int)
                - z as int),
            SCALE as int,
            ((QUARTER_PI as int) + (ATAN_COEFF as int)) * (SCALE as int),
        );
        assert((z as int) * ((QUARTER_PI as int) * (SCALE as int) + (ATAN_COEFF as int) * ((
        SCALE as int) - z as int)) <= (QUARTER_PI as int) * (SCALE as int) * (SCALE as int))
            by (nonlinear_arith)
            requires
                0 <= z as int <= SCALE as int,
                0 < ATAN_COEFF < QUARTER_PI,
        ;
    }
    let zi: i128 = z as i128;
    let inner: i128 = (QUARTER_PI as i128) * (SCALE as i128) + (ATAN_COEFF as i128) * ((
    SCALE as i128) - zi);
    let num: i128 = zi * inner;
    let q: i128 = num / ((SCALE as i128) * (SCALE as i128));
    q as i64
}

/// The bearing of the point `(x, y)` from the origin, in `[-PI, PI]`;
/// zero for the origin itself.
pub fn atan2_fp(y: i64, x: i64) -> (r: i64)
    requires
        fp_in_range(y as int),
        fp_in_range(x as int),
    ensures
        r as int == spec_atan2(y as int, x as int),
        -PI <= r <= PI,
{
    let ax: i64 = if x < 0 {
        -x
    } else {
        x
    };
    let ay: i64 = if y < 0 {
        -y
    } else {
        y
    };
    let base: i64 = if ax >= ay {
        if ax == 0 {
            0
        } else {
            let z: i128 = ((ay as i128) * (SCALE as i128)) / (ax as i128);
            proof {
                lemma_div_pos_is_pos((ay as int) * (SCALE as int), ax as int);
                lemma_div_is_ordered(
                    (ay as int) * (SCALE as int),
                    (ax as int) * (SCALE as int),
                    ax as int,
                );
                lemma_div_multiples_vanish(SCALE as int, ax as int);
            }
            atan_frac(z as i64)
        }
    } else {
        let z: i128 = ((ax as i128) * (SCALE as i128)) / (ay as i128);
        proof {
            lemma_div_pos_is_pos((ax as int) * (SCALE as int), ay as int);
            lemma_div_is_ordered(
                (ax as int) * (SCALE as int),
                (ay as int) * (SCALE as int),
                ay as int,
            );
            lemma_div_multiples_vanish(SCALE as int, ay as int);
        }
        HALF_PI - atan_frac(z as i64)
    };
    if x >= 0 {
        if y >= 0 {
            base
        } else {
            -base
        }
    } else {
        if y >= 0 {
            PI - base
        } else {
            base - PI
        }
    }
}

/// The sine approximation is exact at every multiple of a quarter turn,
/// through one and a half turns: axis-aligned motion suffers no rounding.
pub proof fn lemma_sin_quarter_turns()
    ensures
        spec_sin(0) == 0,
        spec_sin(HALF_PI as int) == SCALE,
        spec_sin(PI as int) == 0,
        spec_sin((PI + HALF_PI) as int) == -SCALE,
        spec_sin(TWO_PI as int) == 0,
        spec_sin((TWO_PI + HALF_PI) as int) == SCALE,
        spec_sin((TWO_PI + PI) as int) == 0,
{
    assert(102944 * (205888 - 102944) == 10597467136int) by (nonlinear_arith);
    assert(205888 * (205888 - 205888) == 0int) by (nonlinear_arith);
    assert(0 * (205888 - 0) == 0int) by (nonlinear_arith);
    assert(16 * 10597467136 * 65536int == 11112249699598336int) by (nonlinear_arith);
    assert(5 * 205888 * 205888 == 211949342720int) by (nonlinear_arith);
    assert(4 * 10597467136int == 42389868544int) by (nonlinear_arith);
    assert(169559474176int * 65536 == 11112249699598336int) by (nonlinear_arith);
    lemma_div_multiples_vanish(65536, 169559474176);
    assert(11112249699598336int / 169559474176 == 65536);
    assert(spec_bhaskara(0) == 0);
    assert(spec_bhaskara(102944) == 65536);
    assert(spec_bhaskara(205888) == 0);
}

/// The bearing of a point on the horizontal axis: zero looking right, a
/// half turn looking left.
pub proof fn lemma_atan2_axis(x: int)
    requires
        1 <= x,
    ensures
        spec_atan2(0, x) == 0,
        spec_atan2(0, -x) == PI,
{
    vstd::arithmetic::div_mod::lemma_div_pos_is_pos(0, x);
    vstd::arithmetic::div_mod::lemma_div_nonincreasing(0, x);
    assert((0int * 65536) / x == 0);
    assert(0 * (51472 * 65536 + 17891 * (65536 - 0int)) == 0int) by (nonlinear_arith);
    assert(spec_atan_frac(0) == 0);
}

} // verus!
