//! Fixed-point arithmetic on `i64` values that count millionths.
//!
//! Intermediate results are computed exactly in `i128`; only the value that is
//! stored back into an `i64` is clamped to the representable range.

use vstd::prelude::*;
use vstd::arithmetic::div_mod::lemma_fundamental_div_mod;

verus! {

/// The fixed-point representation of `1.0`.
pub const ONE: i64 = 1_000_000;

/// Whether an exact value can be stored in an `i64` without clamping.
pub open spec fn fits(v: int) -> bool {
    i64::MIN <= v <= i64::MAX
}

/// The value of the `i64` range that is nearest to `v`.
pub open spec fn saturate(v: int) -> int {
    if v < i64::MIN {
        i64::MIN as int
    } else if v > i64::MAX {
        i64::MAX as int
    } else {
        v
    }
}

/// Clamps an exact intermediate result into the `i64` range.
pub fn saturate_wide(v: i128) -> (r: i64)
    ensures
        r == saturate(v as int),
{
    if v < i64::MIN as i128 {
        i64::MIN
    } else if v > i64::MAX as i128 {
        i64::MAX
    } else {
        v as i64
    }
}

/// A quotient by a positive divisor lies between zero and the dividend.
pub proof fn lemma_floor_div_bounds(n: int, d: int)
    requires
        d > 0,
    ensures
        n >= 0 ==> 0 <= n / d <= n,
        n < 0 ==> n <= n / d < 0,
{
    lemma_fundamental_div_mod(n, d);
    let q = n / d;
    let r = n % d;
    assert(n == d * q + r);
    assert(0 <= r < d);
    if n >= 0 {
        assert(q >= 0) by (nonlinear_arith)
            requires
                n == d * q + r,
                0 <= r < d,
                n >= 0,
                d > 0,
        ;
        assert(q <= n) by (nonlinear_arith)
            requires
                n == d * q + r,
                0 <= r < d,
                q >= 0,
                d > 0,
        ;
    } else {
        assert(q < 0) by (nonlinear_arith)
            requires
                n == d * q + r,
                0 <= r < d,
                n < 0,
                d > 0,
        ;
        assert(q >= n) by (nonlinear_arith)
            requires
                n == d * q + r,
                0 <= r < d,
                q < 0,
                d > 0,
        ;
    }
}

/// The quotient of `n` by a positive `d`, rounded towards negative infinity.
pub fn floor_div(n: i128, d: i128) -> (q: i128)
    requires
        d > 0,
    ensures
        q == (n as int) / (d as int),
        n >= 0 ==> 0 <= q <= n,
        n < 0 ==> n <= q < 0,
{
    proof {
        lemma_floor_div_bounds(n as int, d as int);
    }
    match n.checked_div_euclid(d) {
        Some(q) => q,
        None => 0,
    }
}

/// The product of two bounded values is bounded by the product of the bounds.
pub proof fn lemma_product_bounds(a: int, b: int, limit_a: int, limit_b: int)
    by (nonlinear_arith)
    requires
        -limit_a <= a <= limit_a,
        -limit_b <= b <= limit_b,
    ensures
        -(limit_a * limit_b) <= a * b <= limit_a * limit_b,
{
}

/// The sum of two stored values, clamped into the `i64` range.
pub fn plus(a: i64, b: i64) -> (r: i64)
    ensures
        r == saturate(a + b),
{
    saturate_wide(a as i128 + b as i128)
}

/// The difference of two stored values, clamped into the `i64` range.
pub fn minus(a: i64, b: i64) -> (r: i64)
    ensures
        r == saturate(a - b),
{
    saturate_wide(a as i128 - b as i128)
}

/// The fixed-point product of two stored values: `a * b / ONE`, rounded
/// towards negative infinity and clamped into the `i64` range.
pub fn times(a: i64, b: i64) -> (r: i64)
    ensures
        r == saturate((a * b) / (ONE as int)),
{
    proof {
        lemma_product_bounds(a as int, b as int, 0x8000_0000_0000_0000, 0x8000_0000_0000_0000);
    }
    saturate_wide(floor_div(a as i128 * b as i128, ONE as i128))
}

/// Half of a stored value, rounded towards negative infinity.
pub fn half(a: i64) -> (r: i64)
    ensures
        r == a / 2,
{
    let q: i128 = floor_div(a as i128, 2);
    q as i64
}

} // verus!
