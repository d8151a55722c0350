//! Division that rounds to the nearest integer, the one rounding rule of the crate.

use vstd::prelude::*;

verus! {

/// The integer nearest to `n / d`, for `d > 0`; a half rounds away from zero.
pub open spec fn round_div(n: int, d: int) -> int {
    if n >= 0 {
        (2 * n + d) / (2 * d)
    } else {
        -((-2 * n + d) / (2 * d))
    }
}

/// A quotient of a numerator within `0..=k*d` rounds to a value within `0..=k`.
pub proof fn lemma_round_div_bounds(n: int, d: int, k: int)
    requires
        d > 0,
        k >= 0,
        0 <= n <= k * d,
    ensures
        0 <= round_div(n, d) <= k,
{
    let q: int = (2 * n + d) / (2 * d);
    assert(0 <= q <= k) by (nonlinear_arith)
        requires
            d > 0,
            k >= 0,
            0 <= n <= k * d,
            q == (2 * n + d) / (2 * d),
    {
        assert((2 * n + d) == (2 * d) * q + (2 * n + d) % (2 * d));
        assert(0 <= (2 * n + d) % (2 * d) < 2 * d);
        if q > k {
            assert((2 * d) * q >= (2 * d) * (k + 1));
        }
        if q < 0 {
            assert((2 * d) * q <= -(2 * d));
        }
    }
}

/// A quotient of a numerator within `lo*d..=hi*d` rounds to a value within `lo..=hi`.
pub proof fn lemma_round_div_between(n: int, d: int, lo: int, hi: int)
    requires
        d > 0,
        0 <= lo <= hi,
        lo * d <= n <= hi * d,
    ensures
        lo <= round_div(n, d) <= hi,
{
    let q: int = (2 * n + d) / (2 * d);
    assert(lo <= q <= hi) by (nonlinear_arith)
        requires
            d > 0,
            0 <= lo <= hi,
            lo * d <= n <= hi * d,
            q == (2 * n + d) / (2 * d),
    {
        assert((2 * n + d) == (2 * d) * q + (2 * n + d) % (2 * d));
        assert(0 <= (2 * n + d) % (2 * d) < 2 * d);
        if q > hi {
            assert((2 * d) * q >= (2 * d) * (hi + 1));
        }
        if q < lo {
            assert((2 * d) * q <= (2 * d) * (lo - 1));
        }
    }
    assert(n >= 0) by (nonlinear_arith)
        requires
            d > 0,
            0 <= lo,
            lo * d <= n,
    ;
}

/// A rounded quotient, multiplied back, is off by at most half the divisor.
pub proof fn lemma_round_div_error(n: int, d: int)
    requires
        d > 0,
        n >= 0,
    ensures
        2 * n - d < 2 * (d * round_div(n, d)) <= 2 * n + d,
{
    let q: int = (2 * n + d) / (2 * d);
    assert(2 * n - d < 2 * (d * q) <= 2 * n + d) by (nonlinear_arith)
        requires
            d > 0,
            n >= 0,
            q == (2 * n + d) / (2 * d),
    {
        assert((2 * n + d) == (2 * d) * q + (2 * n + d) % (2 * d));
        assert(0 <= (2 * n + d) % (2 * d) < 2 * d);
        assert((2 * d) * q == 2 * (d * q));
    }
}

/// A quotient of an exact multiple is exact: `k*d / d` rounds to `k`.
pub proof fn lemma_round_div_exact(k: int, d: int)
    requires
        d > 0,
        k >= 0,
    ensures
        round_div(k * d, d) == k,
{
    let q: int = (2 * (k * d) + d) / (2 * d);
    assert(q == k) by (nonlinear_arith)
        requires
            d > 0,
            k >= 0,
            q == (2 * (k * d) + d) / (2 * d),
    {
        assert((2 * (k * d) + d) == (2 * d) * q + (2 * (k * d) + d) % (2 * d));
        assert(0 <= (2 * (k * d) + d) % (2 * d) < 2 * d);
        assert(2 * (k * d) + d == (2 * d) * k + d);
        if q > k {
            assert((2 * d) * q >= (2 * d) * (k + 1));
        }
        if q < k {
            assert((2 * d) * q <= (2 * d) * (k - 1));
        }
    }
}

/// Rounds `n / d` to the nearest integer, halves up.
pub fn round_div_u32(n: u32, d: u32) -> (q: u32)
    requires
        d > 0,
        2 * n + 2 * d <= u32::MAX,
    ensures
        q == round_div(n as int, d as int),
{
    (2 * n + d) / (2 * d)
}

} // verus!
