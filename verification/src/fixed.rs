//! Saturating Q47.16 fixed-point arithmetic.
//!
//! A quantity is an `i64` holding its value scaled by [`SCALE`]; one unit is
//! `SCALE`. Every operation clamps its result to `[-FP_MAX, FP_MAX]`, so the
//! simulation can never overflow: a runaway value saturates instead of
//! wrapping. Each executable operation is pinned exactly by a spec twin.

use vstd::prelude::*;

verus! {

/// The scale factor: one unit of length, speed or mass, and 1.0 for the
/// dimensionless coefficients (drag, elasticity).
pub const SCALE: i64 = 65536;

/// Largest magnitude any fixed-point quantity may hold (2^48); all
/// operations saturate here.
pub const FP_MAX: i64 = 281474976710656;

/// A value the fixed-point operations accept and produce.
pub open spec fn fp_in_range(v: int) -> bool {
    -FP_MAX <= v <= FP_MAX
}

/// Saturation to `[-FP_MAX, FP_MAX]`.
pub open spec fn fp_clamp(v: int) -> int {
    if v > FP_MAX {
        FP_MAX as int
    } else if v < -FP_MAX {
        -FP_MAX as int
    } else {
        v
    }
}

/// Division truncated toward zero, as the machine divides (`b > 0`).
pub open spec fn tdiv(a: int, b: int) -> int {
    if a >= 0 {
        a / b
    } else {
        -((-a) / b)
    }
}

/// What `add_fp` returns.
pub open spec fn spec_add_fp(a: int, b: int) -> int {
    fp_clamp(a + b)
}

/// What `sub_fp` returns.
pub open spec fn spec_sub_fp(a: int, b: int) -> int {
    fp_clamp(a - b)
}

/// What `mul_fp` returns: the product of two fixed-point values.
pub open spec fn spec_mul_fp(a: int, b: int) -> int {
    fp_clamp(tdiv(a * b, SCALE as int))
}

/// What `div_fp` returns: the quotient of two fixed-point values (`b > 0`).
pub open spec fn spec_div_fp(a: int, b: int) -> int {
    fp_clamp(tdiv(a * (SCALE as int), b))
}

/// The absolute value.
pub open spec fn iabs(v: int) -> int {
    if v < 0 {
        -v
    } else {
        v
    }
}

/// What `muldiv_fp` returns: `a * b / c` with no scale correction, the shape
/// of the momentum fractions in the collision formula (`c > 0`).
pub open spec fn spec_muldiv_fp(a: int, b: int, c: int) -> int {
    fp_clamp(tdiv(a * b, c))
}

/// What `wavg_fp` returns: the mass-weighted mean used when two joints
/// merge (`c > 0`).
pub open spec fn spec_wavg_fp(x1: int, m1: int, x2: int, m2: int, c: int) -> int {
    fp_clamp(tdiv(x1 * m1 + x2 * m2, c))
}

/// What `pow_unit_fp` returns: the `n`-th power of a coefficient in
/// `[0, SCALE]`.
pub open spec fn spec_pow_unit(base: int, n: nat) -> int
    decreases n,
{
    if n == 0 {
        SCALE as int
    } else {
        spec_mul_fp(spec_pow_unit(base, (n - 1) as nat), base)
    }
}

/// The integer square root: the largest `r` with `r * r <= n`.
pub open spec fn sqrt_floor(n: nat) -> nat
    decreases n,
{
    if n == 0 {
        0
    } else {
        let p = sqrt_floor((n - 1) as nat);
        if (p + 1) * (p + 1) <= n {
            p + 1
        } else {
            p
        }
    }
}

/// What `hypot_fp` returns: the Euclidean norm of `(dx, dy)`. The scale
/// factor passes through the square root unchanged, so no rescaling is
/// needed.
pub open spec fn spec_hypot(dx: int, dy: int) -> int {
    fp_clamp(sqrt_floor((dx * dx + dy * dy) as nat) as int)
}

/// A product of bounded factors is bounded.
pub proof fn lemma_mul_bounds(a: int, b: int, ma: int, mb: int)
    by (nonlinear_arith)
    requires
        -ma <= a <= ma,
        -mb <= b <= mb,
        0 <= ma,
        0 <= mb,
    ensures
        -(ma * mb) <= a * b <= ma * mb,
{
}

/// A square is never negative.
pub proof fn lemma_square_nonneg(a: int)
    by (nonlinear_arith)
    ensures
        0 <= a * a,
{
}

/// The square of a non-zero integer is at least one.
pub proof fn lemma_square_pos(a: int)
    by (nonlinear_arith)
    requires
        a != 0,
    ensures
        1 <= a * a,
{
}

/// `r` is the integer square root of `n`.
pub open spec fn sqrt_brackets(n: int, r: int) -> bool {
    0 <= r && r * r <= n && n < (r + 1) * (r + 1)
}

/// `sqrt_floor` satisfies the square-root bracketing.
pub proof fn lemma_sqrt_floor(n: nat)
    ensures
        sqrt_brackets(n as int, sqrt_floor(n) as int),
    decreases n,
{
    let s = sqrt_floor(n) as int;
    if n == 0 {
        assert(s == 0);
        assert((n as int) < (s + 1) * (s + 1)) by (nonlinear_arith)
            requires
                s == 0,
                n == 0,
        ;
    } else {
        lemma_sqrt_floor((n - 1) as nat);
        let p = sqrt_floor((n - 1) as nat) as int;
        if (p + 1) * (p + 1) <= n {
            assert(s == p + 1);
            assert(s * s <= n as int && (n as int) < (s + 1) * (s + 1)) by (nonlinear_arith)
                requires
                    s == p + 1,
                    (p + 1) * (p + 1) <= n as int,
                    (n as int) - 1 < (p + 1) * (p + 1),
                    0 <= p,
            ;
        } else {
            assert(s == p);
            assert(s * s <= n as int && (n as int) < (s + 1) * (s + 1)) by (nonlinear_arith)
                requires
                    s == p,
                    p * p <= (n as int) - 1,
                    !((p + 1) * (p + 1) <= n as int),
                    0 <= p,
            ;
        }
    }
}

/// Two integers that both satisfy the square-root bracketing are equal.
pub proof fn lemma_sqrt_unique(n: int, r1: int, r2: int)
    by (nonlinear_arith)
    requires
        0 <= n,
        0 <= r1,
        0 <= r2,
        r1 * r1 <= n < (r1 + 1) * (r1 + 1),
        r2 * r2 <= n < (r2 + 1) * (r2 + 1),
    ensures
        r1 == r2,
{
}

/// A zero factor annihilates the fixed-point product.
pub proof fn lemma_mul_fp_zero(a: int)
    ensures
        spec_mul_fp(a, 0) == 0,
        spec_mul_fp(0, a) == 0,
{
    assert(a * 0 == 0 && 0 * a == 0) by (nonlinear_arith);
}

/// Multiplying by one (the scale factor) returns the value unchanged.
pub proof fn lemma_mul_fp_unit(a: int)
    requires
        fp_in_range(a),
    ensures
        spec_mul_fp(a, SCALE as int) == a,
{
    if a >= 0 {
        vstd::arithmetic::div_mod::lemma_div_multiples_vanish(a, SCALE as int);
        assert(a * (SCALE as int) == (SCALE as int) * a) by (nonlinear_arith);
    } else {
        vstd::arithmetic::div_mod::lemma_div_multiples_vanish(-a, SCALE as int);
        assert(-(a * (SCALE as int)) == (SCALE as int) * (-a)) by (nonlinear_arith);
    }
}

/// One (the scale factor) and minus one as left factors: identity and
/// negation.
pub proof fn lemma_mul_fp_unit_left(a: int)
    requires
        0 <= a <= FP_MAX,
    ensures
        spec_mul_fp(SCALE as int, a) == a,
        spec_mul_fp(-(SCALE as int), a) == -a,
{
    vstd::arithmetic::div_mod::lemma_div_multiples_vanish(a, SCALE as int);
    assert(-((-(SCALE as int)) * a) == (SCALE as int) * a) by (nonlinear_arith);
    if a > 0 {
        assert((-(SCALE as int)) * a < 0) by (nonlinear_arith)
            requires
                0 < a,
        ;
    } else {
        assert((-(SCALE as int)) * a == 0 && (SCALE as int) * a == 0) by (nonlinear_arith)
            requires
                a == 0,
        ;
    }
}

/// On either axis, the norm of a displacement is its magnitude, exactly.
pub proof fn lemma_hypot_axis(v: int)
    requires
        0 <= v <= FP_MAX,
    ensures
        spec_hypot(v, 0) == v,
        spec_hypot(-v, 0) == v,
        spec_hypot(0, v) == v,
        spec_hypot(0, -v) == v,
{
    assert((-v) * (-v) == v * v && 0 <= v * v && v * v < (v + 1) * (v + 1) && 0 * 0 == 0)
        by (nonlinear_arith)
        requires
            0 <= v,
    ;
    lemma_sqrt_floor((v * v) as nat);
    lemma_sqrt_unique(v * v, sqrt_floor((v * v) as nat) as int, v);
}

/// The momentum fraction of a zero difference vanishes, and a doubled
/// speed over a doubled mass is the speed itself.
pub proof fn lemma_muldiv_parts(s: int, m: int)
    requires
        0 <= s <= FP_MAX,
        1 <= m <= FP_MAX,
    ensures
        spec_muldiv_fp(s, 0, m + m) == 0,
        spec_muldiv_fp(s + s, m, m + m) == s,
{
    assert(s * 0 == 0) by (nonlinear_arith);
    vstd::arithmetic::div_mod::lemma_div_pos_is_pos(0, m + m);
    vstd::arithmetic::div_mod::lemma_div_nonincreasing(0, m + m);
    assert((s + s) * m == (m + m) * s && 0 <= (s + s) * m) by (nonlinear_arith)
        requires
            0 <= s,
            1 <= m,
    ;
    vstd::arithmetic::div_mod::lemma_div_multiples_vanish(s, m + m);
}

pub(crate) fn clamp_i128(v: i128) -> (r: i64)
    ensures
        r as int == fp_clamp(v as int),
{
    if v > FP_MAX as i128 {
        FP_MAX
    } else if v < -(FP_MAX as i128) {
        -FP_MAX
    } else {
        v as i64
    }
}

/// Saturating fixed-point addition.
pub fn add_fp(a: i64, b: i64) -> (r: i64)
    requires
        fp_in_range(a as int),
        fp_in_range(b as int),
    ensures
        r as int == spec_add_fp(a as int, b as int),
        fp_in_range(r as int),
{
    clamp_i128(a as i128 + b as i128)
}

/// Saturating fixed-point subtraction.
pub fn sub_fp(a: i64, b: i64) -> (r: i64)
    requires
        fp_in_range(a as int),
        fp_in_range(b as int),
    ensures
        r as int == spec_sub_fp(a as int, b as int),
        fp_in_range(r as int),
{
    clamp_i128(a as i128 - b as i128)
}

/// Saturating fixed-point multiplication.
pub fn mul_fp(a: i64, b: i64) -> (r: i64)
    requires
        fp_in_range(a as int),
        fp_in_range(b as int),
    ensures
        r as int == spec_mul_fp(a as int, b as int),
        fp_in_range(r as int),
{
    proof {
        lemma_mul_bounds(a as int, b as int, FP_MAX as int, FP_MAX as int);
    }
    let p: i128 = (a as i128) * (b as i128);
    let q: i128 = p / (SCALE as i128);
    clamp_i128(q)
}

/// Saturating fixed-point division by a positive divisor.
pub fn div_fp(a: i64, b: i64) -> (r: i64)
    requires
        fp_in_range(a as int),
        1 <= b,
    ensures
        r as int == spec_div_fp(a as int, b as int),
        fp_in_range(r as int),
{
    let p: i128 = (a as i128) * (SCALE as i128);
    let q: i128 = p / (b as i128);
    clamp_i128(q)
}

/// Saturating `a * b / c` without scale correction, for momentum fractions.
pub fn muldiv_fp(a: i64, b: i64, c: i64) -> (r: i64)
    requires
        fp_in_range(a as int),
        fp_in_range(b as int),
        1 <= c,
    ensures
        r as int == spec_muldiv_fp(a as int, b as int, c as int),
        fp_in_range(r as int),
{
    proof {
        lemma_mul_bounds(a as int, b as int, FP_MAX as int, FP_MAX as int);
    }
    let p: i128 = (a as i128) * (b as i128);
    let q: i128 = p / (c as i128);
    clamp_i128(q)
}

/// Saturating mass-weighted mean `(x1 * m1 + x2 * m2) / c`.
pub fn wavg_fp(x1: i64, m1: i64, x2: i64, m2: i64, c: i64) -> (r: i64)
    requires
        fp_in_range(x1 as int),
        fp_in_range(m1 as int),
        fp_in_range(x2 as int),
        fp_in_range(m2 as int),
        1 <= c,
    ensures
        r as int == spec_wavg_fp(x1 as int, m1 as int, x2 as int, m2 as int, c as int),
        fp_in_range(r as int),
{
    proof {
        lemma_mul_bounds(x1 as int, m1 as int, FP_MAX as int, FP_MAX as int);
        lemma_mul_bounds(x2 as int, m2 as int, FP_MAX as int, FP_MAX as int);
    }
    let p: i128 = (x1 as i128) * (m1 as i128) + (x2 as i128) * (m2 as i128);
    let q: i128 = p / (c as i128);
    clamp_i128(q)
}

/// A product of non-negative factors is non-negative.
pub proof fn lemma_mul_nonneg(a: int, b: int)
    by (nonlinear_arith)
    requires
        0 <= a,
        0 <= b,
    ensures
        0 <= a * b,
{
}

/// The `n`-th power of a coefficient in `[0, SCALE]`, staying in
/// `[0, SCALE]`.
pub fn pow_unit_fp(base: i64, n: u64) -> (r: i64)
    requires
        0 <= base <= SCALE,
    ensures
        r as int == spec_pow_unit(base as int, n as nat),
        0 <= r <= SCALE,
{
    let mut acc: i64 = SCALE;
    let mut k: u64 = 0;
    while k < n
        invariant
            0 <= k <= n,
            0 <= base <= SCALE,
            acc as int == spec_pow_unit(base as int, k as nat),
            0 <= acc <= SCALE,
        decreases n - k,
    {
        proof {
            lemma_mul_nonneg(acc as int, base as int);
            lemma_mul_bounds(acc as int, base as int, SCALE as int, SCALE as int);
        }
        acc = mul_fp(acc, base);
        k = k + 1;
    }
    acc
}

/// The integer square root of an arbitrary `u128`, found by bisection.
pub fn isqrt_u128(n: u128) -> (r: u128)
    ensures
        r as int == sqrt_floor(n as nat) as int,
        r * r <= n,
{
    let mut lo: u128 = 0;
    let mut hi: u128 = 18446744073709551616;
    while hi - lo > 1
        invariant
            lo < hi <= 18446744073709551616,
            (lo as int) * (lo as int) <= n as int,
            (n as int) < (hi as int) * (hi as int),
        decreases hi - lo,
    {
        let mid: u128 = lo + (hi - lo) / 2;
        assert(mid * mid <= 340282366920938463463374607431768211455u128) by (nonlinear_arith)
            requires
                mid < 18446744073709551616u128,
        ;
        if mid * mid <= n {
            lo = mid;
        } else {
            hi = mid;
        }
    }
    proof {
        lemma_sqrt_floor(n as nat);
        lemma_sqrt_unique(n as int, lo as int, sqrt_floor(n as nat) as int);
    }
    lo
}

/// The Euclidean norm of a fixed-point displacement, exactly
/// `floor(sqrt(dx^2 + dy^2))`.
pub fn hypot_fp(dx: i64, dy: i64) -> (r: i64)
    requires
        fp_in_range(dx as int),
        fp_in_range(dy as int),
    ensures
        r as int == spec_hypot(dx as int, dy as int),
        0 <= r,
        fp_in_range(r as int),
{
    proof {
        lemma_mul_bounds(dx as int, dx as int, FP_MAX as int, FP_MAX as int);
        lemma_mul_bounds(dy as int, dy as int, FP_MAX as int, FP_MAX as int);
        lemma_square_nonneg(dx as int);
        lemma_square_nonneg(dy as int);
    }
    let px: i128 = (dx as i128) * (dx as i128);
    let py: i128 = (dy as i128) * (dy as i128);
    let s: u128 = (px + py) as u128;
    let rt: u128 = isqrt_u128(s);
    assert(rt as int <= FP_MAX as int + FP_MAX as int) by (nonlinear_arith)
        requires
            (rt as int) * (rt as int) <= s as int,
            s as int <= 2 * ((FP_MAX as int) * (FP_MAX as int)),
            0 <= rt as int,
    ;
    clamp_i128(rt as i128)
}

} // verus!
