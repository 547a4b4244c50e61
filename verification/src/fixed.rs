//! Fixed-point scalar kernel.
//!
//! A scalar is an `i64` counting units of `1/SCALE` parsec. Products and
//! quotients are computed through 128-bit intermediates, so none of the
//! operations here can overflow as long as their stated bounds hold.

use vstd::prelude::*;

verus! {

/// One parsec is `SCALE` units; every planner scalar counts such units.
pub const SCALE: i64 = 10_000;

/// Largest magnitude accepted for an input coordinate, radius, clearance,
/// weight or margin (one million parsecs in units).
pub const MAX_UNIT: i64 = 10_000_000_000;

/// Largest offset the detour search will place a candidate at.
pub const OFFSET_CAP: i64 = 150_000_000_000;

/// How much the bound on point coordinates may grow per planner iteration.
pub const ITER_SLACK: i64 = 200_000_000_000;

/// Hard cap on `max_iters`, so coordinate growth and polyline length sums
/// stay within `i64`.
pub const MAX_ITERS_CAP: usize = 1_000;

/// Hard cap on `max_offset_tries`; the offset reaches `OFFSET_CAP` long
/// before this many growth steps.
pub const MAX_OFFSET_TRIES_CAP: usize = 1_000_000;

/// Hard cap on the number of obstacles handed to one compute.
pub const MAX_OBSTACLES: usize = 100_000;

/// Every point the planner constructs stays within this coordinate bound.
pub const P_BOUND: i64 = 3_000_000_000_000_000;

pub open spec fn s_abs(a: int) -> int {
    if a < 0 {
        -a
    } else {
        a
    }
}

/// Fixed-point product `a * b / SCALE`, rounded toward zero.
pub open spec fn s_fp_mul(a: int, b: int) -> int {
    let m = (s_abs(a) * s_abs(b)) / (SCALE as int);
    if (a < 0) != (b < 0) {
        -m
    } else {
        m
    }
}

/// The integer square root: the unique `r >= 0` with `r * r <= n < (r+1)*(r+1)`.
pub open spec fn s_isqrt(n: int) -> int {
    choose|r: int| 0 <= r && #[trigger] (r * r) <= n && n < (r + 1) * (r + 1)
}

pub proof fn lemma_isqrt_is(n: int, r: int)
    requires
        0 <= r,
        r * r <= n,
        n < (r + 1) * (r + 1),
    ensures
        s_isqrt(n) == r,
{
    assert(exists|q: int| 0 <= q && #[trigger] (q * q) <= n && n < (q + 1) * (q + 1));
    let q = s_isqrt(n);
    assert(0 <= q && q * q <= n && n < (q + 1) * (q + 1));
    assert(q == r) by (nonlinear_arith)
        requires
            0 <= q,
            q * q <= n,
            n < (q + 1) * (q + 1),
            0 <= r,
            r * r <= n,
            n < (r + 1) * (r + 1),
    ;
}

pub proof fn lemma_isqrt_le(n: int, bound: int)
    requires
        0 <= n,
        0 <= bound,
        n < (bound + 1) * (bound + 1),
    ensures
        s_isqrt(n) <= bound,
        0 <= s_isqrt(n),
        s_isqrt(n) * s_isqrt(n) <= n,
        n < (s_isqrt(n) + 1) * (s_isqrt(n) + 1),
{
    let r = isqrt_exists(n);
    lemma_isqrt_is(n, r);
    assert(r <= bound) by (nonlinear_arith)
        requires
            0 <= r,
            r * r <= n,
            0 <= bound,
            n < (bound + 1) * (bound + 1),
    ;
}

/// There is an integer square root below any non-negative `n`.
pub proof fn isqrt_exists(n: int) -> (r: int)
    requires
        0 <= n,
    ensures
        0 <= r,
        r * r <= n,
        n < (r + 1) * (r + 1),
    decreases n,
{
    if n == 0 {
        0
    } else {
        let p = isqrt_exists(n - 1);
        if n < (p + 1) * (p + 1) {
            p
        } else {
            assert((p + 1) * (p + 1) == n) by (nonlinear_arith)
                requires
                    p * p <= n - 1,
                    n - 1 < (p + 1) * (p + 1),
                    (p + 1) * (p + 1) <= n,
            ;
            assert(n < (p + 2) * (p + 2)) by (nonlinear_arith)
                requires
                    0 <= p,
                    (p + 1) * (p + 1) == n,
            ;
            p + 1
        }
    }
}

/// Exact integer square root over `u128`, by binary search.
pub fn isqrt_u128(n: u128) -> (r: u64)
    ensures
        r as int == s_isqrt(n as int),
        (r as int) * (r as int) <= n as int,
        (n as int) < (r as int + 1) * (r as int + 1),
{
    let mut lo: u128 = 0;
    let mut hi: u128 = 0x1_0000_0000_0000_0000;
    assert((n as int) < (hi as int) * (hi as int)) by (nonlinear_arith)
        requires
            n <= u128::MAX,
            hi as int == 0x1_0000_0000_0000_0000,
    ;
    while lo + 1 < hi
        invariant
            lo < hi,
            hi <= 0x1_0000_0000_0000_0000,
            (lo as int) * (lo as int) <= n as int,
            (n as int) < (hi as int) * (hi as int),
        decreases hi - lo,
    {
        let mid = lo + (hi - lo) / 2;
        assert((mid as int) * (mid as int) <= (0xffff_ffff_ffff_ffffu64 as int) * (
        0xffff_ffff_ffff_ffffu64 as int)) by (nonlinear_arith)
            requires
                mid < 0x1_0000_0000_0000_0000u128,
        ;
        if mid * mid <= n {
            lo = mid;
        } else {
            hi = mid;
        }
    }
    assert((lo as int) < 0x1_0000_0000_0000_0000) by (nonlinear_arith)
        requires
            (lo as int) * (lo as int) <= n as int,
            n <= u128::MAX,
    ;
    proof {
        lemma_isqrt_is(n as int, lo as int);
    }
    lo as u64
}

/// `s_fp_mul` stays below `bound` when the raw product stays below
/// `bound * SCALE`.
pub proof fn lemma_fp_mul_le(a: int, b: int, bound: int)
    requires
        0 <= bound,
        s_abs(a) * s_abs(b) <= bound * (SCALE as int),
    ensures
        s_abs(s_fp_mul(a, b)) <= bound,
{
    let m = (s_abs(a) * s_abs(b)) / (SCALE as int);
    assert(0 <= m && m <= bound) by (nonlinear_arith)
        requires
            0 <= s_abs(a) * s_abs(b),
            s_abs(a) * s_abs(b) <= bound * (SCALE as int),
            m == (s_abs(a) * s_abs(b)) / (SCALE as int),
            0 <= bound,
    ;
}

/// Fixed-point product, rounded toward zero.
pub fn fp_mul(a: i64, b: i64) -> (r: i64)
    requires
        i64::MIN <= s_fp_mul(a as int, b as int) <= i64::MAX,
    ensures
        r as int == s_fp_mul(a as int, b as int),
{
    let neg = (a < 0) != (b < 0);
    let ua: u128 = if a < 0 {
        (-(a as i128)) as u128
    } else {
        a as u128
    };
    let ub: u128 = if b < 0 {
        (-(b as i128)) as u128
    } else {
        b as u128
    };
    assert(ua as int == s_abs(a as int));
    assert(ub as int == s_abs(b as int));
    assert((ua as int) * (ub as int) <= (0x8000_0000_0000_0000 as int) * (0x8000_0000_0000_0000
        as int)) by (nonlinear_arith)
        requires
            ua <= 0x8000_0000_0000_0000u128,
            ub <= 0x8000_0000_0000_0000u128,
    ;
    let mag = ua * ub / (SCALE as u128);
    if neg {
        assert(s_fp_mul(a as int, b as int) == -(mag as int));
        (-(mag as i128)) as i64
    } else {
        assert(s_fp_mul(a as int, b as int) == mag as int);
        mag as i64
    }
}

pub open spec fn s_clamp(v: int, lo: int, hi: int) -> int {
    if v < lo {
        lo
    } else if v > hi {
        hi
    } else {
        v
    }
}

pub open spec fn s_max(a: int, b: int) -> int {
    if a >= b {
        a
    } else {
        b
    }
}

pub open spec fn s_min(a: int, b: int) -> int {
    if a <= b {
        a
    } else {
        b
    }
}

} // verus!
