//! Rounded division and integer square roots.

use vstd::prelude::*;

use vstd::arithmetic::div_mod::{lemma_fundamental_div_mod, lemma_mod_bound};

verus! {

/// `a / b` rounded to the nearest integer, halves upward (`b > 0`).
pub open spec fn round_div(a: int, b: int) -> int {
    (2 * a + b) / (2 * b)
}

/// `q` is `a / b` rounded as `round_div` rounds: `2bq - b <= 2a < 2bq + b`.
pub proof fn lemma_round_div(a: int, b: int)
    requires
        b > 0,
    ensures
        2 * b * round_div(a, b) - b <= 2 * a < 2 * b * round_div(a, b) + b,
{
    let q = round_div(a, b);
    lemma_fundamental_div_mod(2 * a + b, 2 * b);
    lemma_mod_bound(2 * a + b, 2 * b);
    assert(2 * a + b == 2 * b * q + (2 * a + b) % (2 * b));
}

/// A rounded share of a whole stays within the whole: `0 <= round_div(n *
/// s, d) <= s` for `0 <= n <= d`.
pub proof fn lemma_round_share(n: int, s: int, d: int)
    requires
        0 <= n <= d,
        d > 0,
        s >= 0,
    ensures
        0 <= round_div(n * s, d) <= s,
{
    let q = round_div(n * s, d);
    lemma_round_div(n * s, d);
    assert(0 <= n * s <= d * s) by (nonlinear_arith)
        requires
            0 <= n <= d,
            s >= 0,
    ;
    assert(0 <= q <= s) by (nonlinear_arith)
        requires
            2 * d * q - d <= 2 * (n * s) < 2 * d * q + d,
            0 <= n * s <= d * s,
            d > 0,
    ;
}

/// `r` is the integer square root of `x`.
pub open spec fn is_isqrt(x: int, r: int) -> bool {
    0 <= r && r * r <= x < (r + 1) * (r + 1)
}

/// The integer square root of `x >= 0`: the largest `r` with `r * r <= x`.
pub open spec fn isqrt(x: int) -> int {
    choose|r: int| is_isqrt(x, r)
}

pub proof fn lemma_isqrt_unique(x: int, r: int)
    requires
        is_isqrt(x, r),
    ensures
        isqrt(x) == r,
{
    let q = isqrt(x);
    assert(is_isqrt(x, q));
    if q < r {
        assert((q + 1) * (q + 1) <= r * r) by (nonlinear_arith)
            requires
                0 <= q < r,
        ;
    } else if q > r {
        assert((r + 1) * (r + 1) <= q * q) by (nonlinear_arith)
            requires
                0 <= r < q,
        ;
    }
}

/// The integer square root of `x`, by bisection.
pub fn integer_sqrt(x: u64) -> (r: u64)
    ensures
        is_isqrt(x as int, r as int),
        r as int == isqrt(x as int),
{
    let mut lo: u64 = 0;
    let mut hi: u64 = 0x1_0000_0000;
    assert(hi * hi > x) by (nonlinear_arith)
        requires
            hi == 0x1_0000_0000,
            x < 0x1_0000_0000_0000_0000,
    ;
    while hi - lo > 1
        invariant
            lo < hi <= 0x1_0000_0000,
            lo * lo <= x,
            x < hi * hi,
        decreases hi - lo,
    {
        let mid: u64 = lo + (hi - lo) / 2;
        assert(mid * mid <= 0x1_0000_0000 * 0x1_0000_0000) by (nonlinear_arith)
            requires
                mid <= 0x1_0000_0000,
        ;
        if (mid as u128) * (mid as u128) <= x as u128 {
            lo = mid;
        } else {
            hi = mid;
        }
    }
    proof {
        lemma_isqrt_unique(x as int, lo as int);
    }
    lo
}

/// Some integer square root of `x >= 0` exists.
pub proof fn integer_sqrt_witness(x: int) -> (r: int)
    requires
        x >= 0,
    ensures
        is_isqrt(x, r),
    decreases x,
{
    if x == 0 {
        assert(is_isqrt(0, 0));
        0
    } else {
        let p = integer_sqrt_witness(x - 1);
        if (p + 1) * (p + 1) <= x {
            assert((p + 1) * (p + 1) == x) by (nonlinear_arith)
                requires
                    (p + 1) * (p + 1) <= x,
                    x - 1 < (p + 1) * (p + 1),
            ;
            assert(x < (p + 2) * (p + 2)) by (nonlinear_arith)
                requires
                    (p + 1) * (p + 1) == x,
                    p >= 0,
            ;
            p + 1
        } else {
            p
        }
    }
}

} // verus!
