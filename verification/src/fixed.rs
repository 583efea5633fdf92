//! Fixed-point scalars: an `i64` counts millionths of a unit.
//!
//! Lengths are in millionths of a world unit, angles in millionths of a
//! radian, times in millionths of a second and rates in millionths per second.

use vstd::prelude::*;

verus! {

/// The scalar 1, in millionths.
pub const ONE: i64 = 1_000_000;

/// Half a turn, in millionths of a radian.
pub const HALF_TURN: i64 = 3_141_593;

/// Largest magnitude a scalar handed to the solver may have: a million units.
pub const LIMIT: i64 = 1_000_000_000_000;

/// Whether `x` lies within the range the solver works on.
pub open spec fn in_limit(x: int) -> bool {
    -LIMIT <= x <= LIMIT
}

/// The quotient of `p` by `ONE`, rounded toward zero.
pub open spec fn unscale(p: int) -> int {
    if p >= 0 {
        p / (ONE as int)
    } else {
        -((-p) / (ONE as int))
    }
}

/// The fixed-point product of `a` and `b`, rounded toward zero.
pub open spec fn scaled(a: int, b: int) -> int {
    unscale(a * b)
}

/// `x` bounded below by `lo` and above by `hi`.
pub open spec fn clamped(x: int, lo: int, hi: int) -> int {
    if x < lo {
        lo
    } else if x > hi {
        hi
    } else {
        x
    }
}

/// A product is bounded by the product of the bounds of its factors.
pub proof fn lemma_product_bound(a: int, b: int, m: int, n: int)
    requires
        -m <= a <= m,
        -n <= b <= n,
    ensures
        -(m * n) <= a * b <= m * n,
{
    assert(-(m * n) <= a * b <= m * n) by (nonlinear_arith)
        requires
            -m <= a <= m,
            -n <= b <= n,
    ;
}

/// Rounding toward zero never grows a magnitude, and keeps whole multiples exact.
pub proof fn lemma_unscale_bound(p: int, m: int)
    requires
        -(m * ONE) <= p <= m * ONE,
    ensures
        -m <= unscale(p) <= m,
{
    if p >= 0 {
        assert(p / (ONE as int) <= m) by (nonlinear_arith)
            requires
                0 <= p <= m * ONE,
        ;
        assert(p / (ONE as int) >= 0) by (nonlinear_arith)
            requires
                0 <= p,
        ;
    } else {
        let q = -p;
        assert(q / (ONE as int) <= m) by (nonlinear_arith)
            requires
                0 <= q <= m * ONE,
        ;
        assert(q / (ONE as int) >= 0) by (nonlinear_arith)
            requires
                0 <= q,
        ;
    }
}

/// The fixed-point product with `ONE` is the other factor.
pub proof fn lemma_scaled_one(a: int)
    ensures
        scaled(a, ONE as int) == a,
        scaled(ONE as int, a) == a,
        scaled(a, 0) == 0,
        scaled(0, a) == 0,
{
    assert(a * ONE == ONE * a) by (nonlinear_arith);
    assert(a * 0 == 0 && 0 * a == 0) by (nonlinear_arith);
    if a >= 0 {
        assert((a * ONE) / (ONE as int) == a) by (nonlinear_arith)
            requires
                a >= 0,
        ;
        assert(a * ONE >= 0) by (nonlinear_arith)
            requires
                a >= 0,
        ;
    } else {
        let b = -a;
        assert(-(a * ONE) == b * ONE) by (nonlinear_arith)
            requires
                b == -a,
        ;
        assert((b * ONE) / (ONE as int) == b) by (nonlinear_arith)
            requires
                b >= 0,
        ;
        assert(a * ONE < 0) by (nonlinear_arith)
            requires
                a < 0,
        ;
    }
}

/// Divides a wide product by `ONE`, rounding toward zero.
pub fn unscale_wide(p: i128) -> (r: i128)
    requires
        i128::MIN < p,
    ensures
        r == unscale(p as int),
{
    if p >= 0 {
        p / (ONE as i128)
    } else {
        let q: i128 = (-p) / (ONE as i128);
        -q
    }
}

/// Multiplies two scalars in fixed point, rounding toward zero.
pub fn mul_scaled(a: i64, b: i64) -> (r: i64)
    requires
        in_limit(a as int),
        in_limit(b as int),
    ensures
        r == scaled(a as int, b as int),
        -(LIMIT * ONE) <= r <= LIMIT * ONE,
{
    proof {
        lemma_product_bound(a as int, b as int, LIMIT as int, LIMIT as int);
        lemma_unscale_bound(a * b, LIMIT as int * ONE as int);
    }
    let p: i128 = (a as i128) * (b as i128);
    let q: i128 = unscale_wide(p);
    q as i64
}

/// Bounds `x` between `lo` and `hi`.
pub fn clamp(x: i64, lo: i64, hi: i64) -> (r: i64)
    requires
        lo <= hi,
    ensures
        r == clamped(x as int, lo as int, hi as int),
        lo <= r <= hi,
{
    if x < lo {
        lo
    } else if x > hi {
        hi
    } else {
        x
    }
}

/// The fraction of the remaining way that a smoothed value covers in a step of
/// length `dt` at the given rate: their product, but never more than the whole way.
pub open spec fn smoothing(rate: int, dt: int) -> int {
    if unscale(rate * dt) < ONE {
        unscale(rate * dt)
    } else {
        ONE as int
    }
}

/// However long the step, the smoothing fraction is at most one; from the step
/// length at which rate times time reaches one, it is exactly one.
pub proof fn lemma_smoothing_saturates(rate: int, dt: int)
    requires
        0 <= rate,
        0 <= dt,
    ensures
        0 <= smoothing(rate, dt) <= ONE,
        rate * dt >= ONE * ONE ==> smoothing(rate, dt) == ONE,
{
    assert(rate * dt >= 0) by (nonlinear_arith)
        requires
            0 <= rate,
            0 <= dt,
    ;
    let p = rate * dt;
    assert(p / (ONE as int) >= 0) by (nonlinear_arith)
        requires
            p >= 0,
    ;
    if p >= ONE * ONE {
        assert(p / (ONE as int) >= ONE) by (nonlinear_arith)
            requires
                p >= ONE * ONE,
        ;
    }
}

/// The fraction of the remaining way to cover in a step of `dt` millionths of a
/// second at `rate`.
pub fn smoothing_factor(rate: i64, dt: u64) -> (f: i64)
    requires
        0 <= rate <= LIMIT,
    ensures
        f == smoothing(rate as int, dt as int),
        0 <= f <= ONE,
        rate * dt >= ONE * ONE ==> f == ONE,
{
    proof {
        lemma_product_bound(rate as int, dt as int, LIMIT as int, 0x1_0000_0000_0000_0000);
        lemma_smoothing_saturates(rate as int, dt as int);
    }
    let p: i128 = (rate as i128) * (dt as i128);
    let q: i128 = unscale_wide(p);
    if q < ONE as i128 {
        q as i64
    } else {
        ONE
    }
}

/// Tells whether a scalar lies within the range the solver works on.
pub fn within_limit(x: i64) -> (r: bool)
    ensures
        r == in_limit(x as int),
{
    -LIMIT <= x && x <= LIMIT
}

} // verus!
