//! Integer helpers shared by the fixed-point computations of this crate.
//!
//! Every quotient in the crate is rounded towards negative infinity, which is
//! what `/` means on `int` when the divisor is positive.
use vstd::prelude::*;

verus! {

/// `q` is the quotient of `a` by `d`, rounded down, as soon as the remainder
/// `a - d * q` lies in `0..d`.
pub proof fn lemma_quotient_is_unique(a: int, d: int, q: int)
    by (nonlinear_arith)
    requires
        d > 0,
        d * q <= a < d * q + d,
    ensures
        a / d == q,
{
}

/// The quotient rounded down, and the remainder it leaves.
pub proof fn lemma_quotient_bounds(a: int, d: int)
    by (nonlinear_arith)
    requires
        d > 0,
    ensures
        d * (a / d) <= a < d * (a / d) + d,
{
}

/// A quotient rounded down is monotone in the dividend.
pub proof fn lemma_quotient_is_monotone(a: int, b: int, d: int)
    requires
        d > 0,
        a <= b,
    ensures
        a / d <= b / d,
{
    lemma_quotient_bounds(a, d);
    lemma_quotient_bounds(b, d);
    let p = a / d;
    let q = b / d;
    assert(p <= q) by (nonlinear_arith)
        requires
            d > 0,
            d * p <= a,
            a <= b,
            b < d * q + d,
    ;
}

/// Divides `a` by the positive `d`, rounding towards negative infinity.
pub fn div_floor(a: i128, d: i128) -> (q: i128)
    requires
        d > 0,
    ensures
        q == a / d,
{
    if a >= 0 {
        a / d
    } else {
        let below: i128 = -(a + 1);
        let k: i128 = below / d;
        proof {
            lemma_quotient_bounds(below as int, d as int);
            assert(0 <= k) by (nonlinear_arith)
                requires
                    d > 0,
                    0 <= below,
                    below < d * k + d,
            ;
            assert(k <= below) by (nonlinear_arith)
                requires
                    d > 0,
                    0 <= k,
                    d * k <= below,
            ;
            assert(d * (-k - 1) == -(d * k) - d) by (nonlinear_arith);
            lemma_quotient_is_unique(a as int, d as int, -k - 1);
        }
        -k - 1
    }
}

/// A product of two bounded, non-negative factors is bounded by the product
/// of the bounds.
pub proof fn lemma_product_is_bounded(a: int, b: int, a_max: int, b_max: int)
    by (nonlinear_arith)
    requires
        0 <= a <= a_max,
        0 <= b <= b_max,
    ensures
        0 <= a * b <= a_max * b_max,
{
}

/// A quotient of a non-negative dividend by a positive divisor is not
/// negative, and it grows when the divisor shrinks.
pub proof fn lemma_quotient_of_bounded(a: int, d: int, a_max: int, d_min: int)
    requires
        0 <= a <= a_max,
        0 < d_min <= d,
    ensures
        0 <= a / d <= a_max / d_min,
{
    lemma_quotient_bounds(a, d);
    lemma_quotient_bounds(a_max, d_min);
    let p = a / d;
    let q = a_max / d_min;
    assert(0 <= p) by (nonlinear_arith)
        requires
            d > 0,
            0 <= a < d * p + d,
    ;
    assert(p <= q) by (nonlinear_arith)
        requires
            0 < d_min <= d,
            0 <= p,
            d * p <= a,
            a <= a_max,
            a_max < d_min * q + d_min,
    ;
}

/// The mean of two numbers, weighted by two weights that are not negative
/// and not both zero, lies between any bounds on the two numbers.
pub proof fn lemma_weighted_mean_is_between(
    w1: int,
    x1: int,
    w2: int,
    x2: int,
    low: int,
    high: int,
)
    requires
        0 <= w1,
        0 <= w2,
        0 < w1 + w2,
        low <= x1 <= high,
        low <= x2 <= high,
    ensures
        low <= (w1 * x1 + w2 * x2) / (w1 + w2) <= high,
{
    let w = w1 + w2;
    let n = w1 * x1 + w2 * x2;
    let q = n / w;
    lemma_quotient_bounds(n, w);
    assert(w * low <= n <= w * high) by (nonlinear_arith)
        requires
            0 <= w1,
            0 <= w2,
            w == w1 + w2,
            n == w1 * x1 + w2 * x2,
            low <= x1 <= high,
            low <= x2 <= high,
    ;
    assert(low <= q <= high) by (nonlinear_arith)
        requires
            w > 0,
            w * low <= n <= w * high,
            w * q <= n < w * q + w,
    ;
}

/// The part `b` out of `c` of a non-negative `a` is at most `a`.
pub proof fn lemma_share_is_bounded(a: int, b: int, c: int)
    requires
        0 <= a,
        0 <= b <= c,
        0 < c,
    ensures
        0 <= a * b / c <= a,
{
    lemma_quotient_bounds(a * b, c);
    let q = a * b / c;
    assert(0 <= a * b <= a * c) by (nonlinear_arith)
        requires
            0 <= a,
            0 <= b <= c,
    ;
    assert(0 <= q <= a) by (nonlinear_arith)
        requires
            0 < c,
            0 <= a * b <= a * c,
            c * q <= a * b < c * q + c,
    ;
}

} // verus!
