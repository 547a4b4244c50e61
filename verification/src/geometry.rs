//! 2-D geometry kernel over fixed-point coordinates.
//!
//! Points carry `i64` coordinates in units of `1/SCALE` parsec. All
//! operations are total on their stated domains and are pinned to spec-level
//! twins, so that every caller computes exactly the modelled value.

use vstd::prelude::*;

use crate::fixed::{
    fp_mul, isqrt_u128, lemma_fp_mul_le, lemma_isqrt_is, lemma_isqrt_le, s_abs, s_clamp, s_fp_mul,
    s_isqrt, SCALE,
};

verus! {

/// Coordinate bound under which `add`, `sub` and `dist` cannot overflow.
pub const GEO_BOUND: i64 = 2_000_000_000_000_000_000;

/// Coordinate bound under which `norm` and `normalize` cannot overflow.
pub const NORM_BOUND: i64 = 4_000_000_000_000_000_000;

/// Upper bound on `norm` of a point within `NORM_BOUND`.
pub const NORM_MAX: i64 = 5_700_000_000_000_000_000;

#[derive(Debug, Clone, Copy, PartialEq, Eq, Structural)]
pub struct Point {
    pub x: i64,
    pub y: i64,
}

/// Both coordinates of `p` have magnitude at most `b`.
pub open spec fn pt_in(p: Point, b: int) -> bool {
    s_abs(p.x as int) <= b && s_abs(p.y as int) <= b
}

impl Point {
    pub fn new(x: i64, y: i64) -> (r: Self)
        ensures
            r.x == x,
            r.y == y,
    {
        Self { x, y }
    }
}

pub fn add(a: Point, b: Point) -> (r: Point)
    requires
        pt_in(a, GEO_BOUND as int),
        pt_in(b, GEO_BOUND as int),
    ensures
        r.x as int == a.x + b.x,
        r.y as int == a.y + b.y,
{
    Point { x: a.x + b.x, y: a.y + b.y }
}

pub fn sub(a: Point, b: Point) -> (r: Point)
    requires
        pt_in(a, GEO_BOUND as int),
        pt_in(b, GEO_BOUND as int),
    ensures
        r.x as int == a.x - b.x,
        r.y as int == a.y - b.y,
{
    Point { x: a.x - b.x, y: a.y - b.y }
}

/// Scale a point by the fixed-point factor `k`.
pub fn mul(a: Point, k: i64) -> (r: Point)
    requires
        s_abs(a.x as int) * s_abs(k as int) <= (GEO_BOUND as int) * (SCALE as int),
        s_abs(a.y as int) * s_abs(k as int) <= (GEO_BOUND as int) * (SCALE as int),
    ensures
        r.x as int == s_fp_mul(a.x as int, k as int),
        r.y as int == s_fp_mul(a.y as int, k as int),
        pt_in(r, GEO_BOUND as int),
{
    proof {
        lemma_fp_mul_le(a.x as int, k as int, GEO_BOUND as int);
        lemma_fp_mul_le(a.y as int, k as int, GEO_BOUND as int);
    }
    Point { x: fp_mul(a.x, k), y: fp_mul(a.y, k) }
}

/// Raw inner product: scale `1/SCALE^2`, no division applied.
pub fn dot(a: Point, b: Point) -> (r: i128)
    requires
        pt_in(a, NORM_BOUND as int),
        pt_in(b, NORM_BOUND as int),
    ensures
        r as int == (a.x as int) * (b.x as int) + (a.y as int) * (b.y as int),
{
    proof {
        lemma_prod_bound(a.x as int, b.x as int, NORM_BOUND as int);
        lemma_prod_bound(a.y as int, b.y as int, NORM_BOUND as int);
    }
    (a.x as i128) * (b.x as i128) + (a.y as i128) * (b.y as i128)
}

/// Raw squared norm: scale `1/SCALE^2`.
pub fn norm2(a: Point) -> (r: i128)
    requires
        pt_in(a, NORM_BOUND as int),
    ensures
        r as int == s_norm2(a),
        r >= 0,
{
    proof {
        lemma_sq_nonneg(a.x as int);
        lemma_sq_nonneg(a.y as int);
    }
    dot(a, a)
}

pub open spec fn s_norm2(a: Point) -> int {
    (a.x as int) * (a.x as int) + (a.y as int) * (a.y as int)
}

pub open spec fn s_norm(a: Point) -> int {
    s_isqrt(s_norm2(a))
}

pub open spec fn s_dist(a: Point, b: Point) -> int {
    s_isqrt(((a.x - b.x) as int) * ((a.x - b.x) as int) + ((a.y - b.y) as int) * ((a.y - b.y)
        as int))
}

/// Euclidean norm, rounded down to whole units.
pub fn norm(a: Point) -> (r: i64)
    requires
        pt_in(a, NORM_BOUND as int),
    ensures
        r as int == s_norm(a),
        0 <= r <= NORM_MAX,
        s_abs(a.x as int) <= r as int,
        s_abs(a.y as int) <= r as int,
{
    let n2 = norm2(a);
    proof {
        lemma_norm2_bound(a, NORM_BOUND as int);
        lemma_isqrt_le(n2 as int, NORM_MAX as int);
    }
    let r = isqrt_u128(n2 as u128);
    proof {
        lemma_isqrt_ge_component(a, r as int);
    }
    r as i64
}

pub fn dist(a: Point, b: Point) -> (r: i64)
    requires
        pt_in(a, GEO_BOUND as int),
        pt_in(b, GEO_BOUND as int),
    ensures
        r as int == s_dist(a, b),
        0 <= r <= NORM_MAX,
{
    let d = crate::geometry::sub(a, b);
    norm(d)
}

pub fn clamp(v: i64, lo: i64, hi: i64) -> (r: i64)
    ensures
        r as int == s_clamp(v as int, lo as int, hi as int),
{
    if v < lo {
        lo
    } else if v > hi {
        hi
    } else {
        v
    }
}

/// The component along `x` of the fixed-point unit vector of `(x, y)`:
/// `sign(x) * (|x| * SCALE / norm)`, or `0` for the zero vector.
pub open spec fn s_ux(x: int, y: int) -> int {
    if x == 0 && y == 0 {
        0
    } else {
        let m = s_abs(x) * (SCALE as int) / s_isqrt(x * x + y * y);
        if x < 0 {
            -m
        } else {
            m
        }
    }
}

pub open spec fn s_uy(x: int, y: int) -> int {
    if x == 0 && y == 0 {
        0
    } else {
        let m = s_abs(y) * (SCALE as int) / s_isqrt(x * x + y * y);
        if y < 0 {
            -m
        } else {
            m
        }
    }
}

pub open spec fn s_unit_x(v: Point) -> int {
    s_ux(v.x as int, v.y as int)
}

pub open spec fn s_unit_y(v: Point) -> int {
    s_uy(v.x as int, v.y as int)
}

/// Fixed-point unit vector; the zero vector maps to the zero vector.
pub fn normalize(v: Point) -> (r: Point)
    requires
        pt_in(v, NORM_BOUND as int),
    ensures
        r.x as int == s_unit_x(v),
        r.y as int == s_unit_y(v),
        pt_in(r, SCALE as int),
{
    if v.x == 0 && v.y == 0 {
        Point { x: 0, y: 0 }
    } else {
        let n = norm(v);
        proof {
            lemma_norm_pos(v);
        }
        let rx = unit_comp(v.x, n);
        let ry = unit_comp(v.y, n);
        Point { x: rx, y: ry }
    }
}

/// One component of a fixed-point unit vector: `sign(c) * (|c| * SCALE / n)`.
fn unit_comp(c: i64, n: i64) -> (r: i64)
    requires
        0 < n,
        s_abs(c as int) <= n as int,
    ensures
        (c >= 0 ==> r as int == s_abs(c as int) * (SCALE as int) / (n as int)),
        (c < 0 ==> r as int == -(s_abs(c as int) * (SCALE as int) / (n as int))),
        s_abs(r as int) <= SCALE as int,
{
    let uc: u128 = if c < 0 {
        (-(c as i128)) as u128
    } else {
        c as u128
    };
    assert((uc as int) * (SCALE as int) <= (0x8000_0000_0000_0000 as int) * (SCALE as int))
        by (nonlinear_arith)
        requires
            uc <= 0x8000_0000_0000_0000u128,
    ;
    let m = uc * (SCALE as u128) / (n as u128);
    proof {
        lemma_unit_comp_le(c as int, n as int);
    }
    if c < 0 {
        (-(m as i128)) as i64
    } else {
        m as i64
    }
}

/// Rotation by 90 degrees counter-clockwise.
pub fn perp(v: Point) -> (r: Point)
    requires
        pt_in(v, GEO_BOUND as int),
    ensures
        r.x as int == -(v.y as int),
        r.y as int == v.x as int,
{
    Point { x: -v.y, y: v.x }
}

proof fn lemma_prod_bound(a: int, b: int, m: int)
    requires
        s_abs(a) <= m,
        s_abs(b) <= m,
        0 <= m,
    ensures
        s_abs(a * b) <= m * m,
{
    assert(s_abs(a * b) <= m * m) by (nonlinear_arith)
        requires
            s_abs(a) <= m,
            s_abs(b) <= m,
            0 <= m,
    ;
}

proof fn lemma_sq_nonneg(a: int)
    ensures
        a * a >= 0,
        a * a == s_abs(a) * s_abs(a),
{
    assert(a * a >= 0 && a * a == s_abs(a) * s_abs(a)) by (nonlinear_arith);
}

proof fn lemma_norm2_bound(a: Point, b: int)
    requires
        pt_in(a, b),
        0 <= b,
        2 * b * b < (NORM_MAX as int + 1) * (NORM_MAX as int + 1),
    ensures
        0 <= s_norm2(a) <= 2 * b * b,
        s_norm2(a) < (NORM_MAX as int + 1) * (NORM_MAX as int + 1),
{
    assert(0 <= s_norm2(a) <= 2 * b * b) by (nonlinear_arith)
        requires
            s_abs(a.x as int) <= b,
            s_abs(a.y as int) <= b,
            0 <= b,
    ;
}

/// The norm of a vector dominates the magnitude of each component.
proof fn lemma_isqrt_ge_component(a: Point, r: int)
    requires
        r == s_norm(a),
        0 <= r,
        r * r <= s_norm2(a),
        s_norm2(a) < (r + 1) * (r + 1),
    ensures
        s_abs(a.x as int) <= r,
        s_abs(a.y as int) <= r,
{
    assert(s_abs(a.x as int) <= r && s_abs(a.y as int) <= r) by (nonlinear_arith)
        requires
            0 <= r,
            r * r <= s_norm2(a),
            s_norm2(a) < (r + 1) * (r + 1),
            s_norm2(a) == (a.x as int) * (a.x as int) + (a.y as int) * (a.y as int),
    ;
}

proof fn lemma_norm_pos(v: Point)
    requires
        !(v.x == 0 && v.y == 0),
        pt_in(v, NORM_BOUND as int),
    ensures
        s_norm(v) >= 1,
{
    assert(s_norm2(v) >= 1) by (nonlinear_arith)
        requires
            s_norm2(v) == (v.x as int) * (v.x as int) + (v.y as int) * (v.y as int),
            !(v.x == 0 && v.y == 0),
    ;
    let r = s_norm(v);
    lemma_norm2_bound(v, NORM_BOUND as int);
    lemma_isqrt_le(s_norm2(v), NORM_MAX as int);
    assert(r >= 1) by (nonlinear_arith)
        requires
            0 <= r,
            s_norm2(v) >= 1,
            s_norm2(v) < (r + 1) * (r + 1),
    ;
}

proof fn lemma_unit_comp_le(c: int, n: int)
    requires
        0 < n,
        s_abs(c) <= n,
    ensures
        0 <= s_abs(c) * (SCALE as int) / n <= SCALE as int,
{
    assert(0 <= s_abs(c) * (SCALE as int) / n <= SCALE as int) by (nonlinear_arith)
        requires
            0 < n,
            0 <= s_abs(c) <= n,
    ;
}

} // verus!
