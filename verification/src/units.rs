//! Fixed-point helpers shared by every stage of the controller.
//!
//! All quantities are scaled integers: one unit is a thousandth of the
//! physical unit (millimetres per second for speed, millimetres per second
//! squared for acceleration, milliradians for angles, thousandths for
//! dimensionless ratios and gains).

use vstd::prelude::*;

verus! {

/// The fixed-point scale: one physical unit is this many integer steps.
pub const SCALE: i64 = 1000;

/// Mathematical clamp of `x` into `[lo, hi]`.
pub open spec fn clamp_i(x: int, lo: int, hi: int) -> int {
    if x < lo {
        lo
    } else if x > hi {
        hi
    } else {
        x
    }
}

/// Mathematical absolute value.
pub open spec fn abs_i(x: int) -> int {
    if x < 0 {
        -x
    } else {
        x
    }
}

/// Mathematical maximum.
pub open spec fn max_i(a: int, b: int) -> int {
    if a >= b {
        a
    } else {
        b
    }
}

/// Truncating division (round toward zero), defined for a positive divisor.
pub open spec fn div_t(a: int, b: int) -> int {
    if a >= 0 {
        a / b
    } else {
        -((-a) / b)
    }
}

/// Clamps `x` into the interval `[lo, hi]`.
pub fn clamp64(x: i64, lo: i64, hi: i64) -> (r: i64)
    requires
        lo <= hi,
    ensures
        r == clamp_i(x as int, lo as int, hi as int),
{
    if x < lo {
        lo
    } else if x > hi {
        hi
    } else {
        x
    }
}

/// Absolute value of `x`.
pub fn abs64(x: i64) -> (r: i64)
    requires
        x > i64::MIN,
    ensures
        r == abs_i(x as int),
{
    if x < 0 {
        -x
    } else {
        x
    }
}

/// Truncating division of `a` by a positive divisor `b`.
pub fn div_trunc(a: i64, b: i64) -> (r: i64)
    requires
        b > 0,
        a > i64::MIN,
    ensures
        r == div_t(a as int, b as int),
        abs_i(r as int) <= abs_i(a as int),
{
    proof {
        lemma_div_t_bounds(a as int, b as int);
    }
    if a >= 0 {
        ((a as u64) / (b as u64)) as i64
    } else {
        -((((-a) as u64) / (b as u64)) as i64)
    }
}

/// Bound on a truncating quotient from a bound on the dividend.
pub proof fn lemma_div_t_le(a: int, b: int, cap: int)
    requires
        b > 0,
        0 <= cap,
        -cap <= a <= cap,
    ensures
        -(cap / b) <= div_t(a, b) <= cap / b,
{
    if a >= 0 {
        vstd::arithmetic::div_mod::lemma_div_is_ordered(a, cap, b);
        lemma_div_t_bounds(a, b);
    } else {
        vstd::arithmetic::div_mod::lemma_div_is_ordered(-a, cap, b);
        lemma_div_t_bounds(a, b);
    }
}

/// A value scaled by `k` and divided by its own bound stays within `k`.
pub proof fn lemma_ratio_bounded(t: int, m: int, k: int)
    requires
        m > 0,
        k >= 0,
        -m <= t <= m,
    ensures
        -k <= div_t(k * t, m) <= k,
{
    lemma_mul_abs_bound(k, t, k, m);
    lemma_div_t_le(k * t, m, k * m);
    vstd::arithmetic::div_mod::lemma_div_multiples_vanish(k, m);
}

/// Bound on a product from bounds on its factors.
pub proof fn lemma_mul_abs_bound(x: int, y: int, xb: int, yb: int)
    requires
        -xb <= x <= xb,
        -yb <= y <= yb,
    ensures
        -(xb * yb) <= x * y <= xb * yb,
{
    assert(-(xb * yb) <= x * y <= xb * yb) by (nonlinear_arith)
        requires
            -xb <= x <= xb,
            -yb <= y <= yb,
    ;
}

/// A truncating quotient never exceeds the dividend in magnitude.
pub proof fn lemma_div_t_bounds(a: int, b: int)
    requires
        b > 0,
    ensures
        abs_i(div_t(a, b)) <= abs_i(a),
        a >= 0 ==> 0 <= div_t(a, b) <= a,
        a < 0 ==> a <= div_t(a, b) <= 0,
{
    if a >= 0 {
        assert(0 <= a / b <= a) by (nonlinear_arith)
            requires
                a >= 0,
                b > 0,
        ;
    } else {
        assert(0 <= (-a) / b <= -a) by (nonlinear_arith)
            requires
                -a >= 0,
                b > 0,
        ;
    }
}

} // verus!
