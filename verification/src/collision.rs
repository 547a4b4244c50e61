//! Collision oracle: closest point on a segment, the interior-collision
//! predicate, the first collision along a segment, and the proximity penalty
//! field used by the scoring function.
//!
//! An obstacle collides with a segment only on the segment's interior
//! (`0 < t < SCALE`): collisions at the endpoints are allowed, which permits
//! routing into a destination whose safety disc encloses the destination
//! point itself.

use vstd::prelude::*;

use crate::fixed::{s_abs, s_fp_mul, s_isqrt, s_min, MAX_OBSTACLES, MAX_UNIT, P_BOUND, SCALE};
use crate::geometry::{dot, norm2, pt_in, Point};

verus! {

/// A planet materialized as a circular no-fly zone for one compute.
#[derive(Debug, Clone)]
pub struct Obstacle {
    pub id: i64,
    pub name: String,
    pub center: Point,
    pub radius: i64,
}

/// Closest-point record: `t` in `[0, SCALE]` along the segment, the point
/// `q` on the segment, and the distance from the query point to `q`.
#[derive(Debug, Clone, Copy, PartialEq, Eq, Structural)]
pub struct ClosestPoint {
    pub t: i64,
    pub q: Point,
    pub dist: i64,
}

/// One interior collision: the obstacle hit and its closest-point record.
#[derive(Debug, Clone, Copy, PartialEq, Eq, Structural)]
pub struct Hit {
    pub obstacle_id: i64,
    pub obstacle_center: Point,
    pub obstacle_radius: i64,
    pub closest: ClosestPoint,
}

pub open spec fn wf_ob(o: Obstacle) -> bool {
    pt_in(o.center, MAX_UNIT as int) && 0 <= o.radius <= MAX_UNIT && o.id > i64::MIN
}

pub open spec fn wf_obs(obs: Seq<Obstacle>) -> bool {
    obs.len() <= MAX_OBSTACLES && forall|i: int| 0 <= i < obs.len() ==> wf_ob(#[trigger] obs[i])
}

/// `t` of the closest point of `p` on segment `ab`, fixed point in `[0, SCALE]`.
pub open spec fn s_closest_t(p: Point, a: Point, b: Point) -> int {
    let abx = b.x - a.x as int;
    let aby = b.y - a.y as int;
    let ab2 = abx * abx + aby * aby;
    let dt = (p.x - a.x as int) * abx + (p.y - a.y as int) * aby;
    if ab2 == 0 {
        0
    } else if dt <= 0 {
        0
    } else {
        s_min(dt * (SCALE as int) / ab2, SCALE as int)
    }
}

pub open spec fn s_closest_qx(p: Point, a: Point, b: Point) -> int {
    a.x + s_fp_mul(b.x - a.x as int, s_closest_t(p, a, b))
}

pub open spec fn s_closest_qy(p: Point, a: Point, b: Point) -> int {
    a.y + s_fp_mul(b.y - a.y as int, s_closest_t(p, a, b))
}

/// Distance from `p` to its closest point on segment `ab`.
pub open spec fn s_closest_dist(p: Point, a: Point, b: Point) -> int {
    let dx = p.x - s_closest_qx(p, a, b);
    let dy = p.y - s_closest_qy(p, a, b);
    s_isqrt(dx * dx + dy * dy)
}

/// The interior-collision predicate: the closest point lies strictly inside
/// the segment and strictly inside the obstacle's disc.
pub open spec fn s_interior_collision(a: Point, b: Point, o: Obstacle) -> bool {
    let t = s_closest_t(o.center, a, b);
    0 < t < SCALE && s_closest_dist(o.center, a, b) < o.radius
}

/// No obstacle of `obs` collides with the interior of segment `ab`.
pub open spec fn s_segment_safe(a: Point, b: Point, obs: Seq<Obstacle>) -> bool {
    forall|i: int| 0 <= i < obs.len() ==> !s_interior_collision(a, b, #[trigger] obs[i])
}

pub fn closest_point_on_segment(p: Point, a: Point, b: Point) -> (cp: ClosestPoint)
    requires
        pt_in(p, P_BOUND as int),
        pt_in(a, P_BOUND as int),
        pt_in(b, P_BOUND as int),
    ensures
        cp.t as int == s_closest_t(p, a, b),
        cp.q.x as int == s_closest_qx(p, a, b),
        cp.q.y as int == s_closest_qy(p, a, b),
        cp.dist as int == s_closest_dist(p, a, b),
        0 <= cp.t <= SCALE,
        0 <= cp.dist,
        pt_in(cp.q, 2 * P_BOUND as int),
{
    let ab = crate::geometry::sub(b, a);
    let ap = crate::geometry::sub(p, a);
    let ab2 = norm2(ab);
    let t: i64 = if ab2 == 0 {
        0
    } else {
        let dt = dot(ap, ab);
        if dt <= 0 {
            0
        } else {
            proof {
                assert(dt as int <= 8 * (P_BOUND as int) * (P_BOUND as int)) by (nonlinear_arith)
                    requires
                        dt as int == (ap.x as int) * (ab.x as int) + (ap.y as int) * (ab.y as int),
                        s_abs(ap.x as int) <= 2 * P_BOUND as int,
                        s_abs(ap.y as int) <= 2 * P_BOUND as int,
                        s_abs(ab.x as int) <= 2 * P_BOUND as int,
                        s_abs(ab.y as int) <= 2 * P_BOUND as int,
                ;
                lemma_t_mul_fits(dt as int);
            }
            let scaled = (dt as u128) * (SCALE as u128) / (ab2 as u128);
            if scaled >= SCALE as u128 {
                SCALE
            } else {
                scaled as i64
            }
        }
    };
    proof {
        lemma_mul_t_keeps_bound(ab.x as int, t as int);
        lemma_mul_t_keeps_bound(ab.y as int, t as int);
    }
    let q = crate::geometry::add(a, crate::geometry::mul(ab, t));
    let d = crate::geometry::dist(p, q);
    ClosestPoint { t, q, dist: d }
}

pub fn interior_collision_on_segment(a: Point, b: Point, o: &Obstacle) -> (r: bool)
    requires
        pt_in(a, P_BOUND as int),
        pt_in(b, P_BOUND as int),
        wf_ob(*o),
    ensures
        r == s_interior_collision(a, b, *o),
{
    let cp = closest_point_on_segment(o.center, a, b);
    if cp.t <= 0 || cp.t >= SCALE {
        return false;
    }
    cp.dist < o.radius
}

pub fn is_segment_safe(a: Point, b: Point, obstacles: &Vec<Obstacle>) -> (r: bool)
    requires
        pt_in(a, P_BOUND as int),
        pt_in(b, P_BOUND as int),
        wf_obs(obstacles@),
    ensures
        r == s_segment_safe(a, b, obstacles@),
{
    for i in 0..obstacles.len()
        invariant
            pt_in(a, P_BOUND as int),
            pt_in(b, P_BOUND as int),
            wf_obs(obstacles@),
            forall|j: int| 0 <= j < i ==> !s_interior_collision(a, b, #[trigger] obstacles@[j]),
    {
        if interior_collision_on_segment(a, b, &obstacles[i]) {
            return false;
        }
    }
    true
}

/// Ghost image of a `Hit`, as the collision model speaks of it.
pub ghost struct HitG {
    pub obstacle_id: int,
    pub center_x: int,
    pub center_y: int,
    pub radius: int,
    pub t: int,
    pub qx: int,
    pub qy: int,
    pub dist: int,
}

impl Hit {
    pub open spec fn g(self) -> HitG {
        HitG {
            obstacle_id: self.obstacle_id as int,
            center_x: self.obstacle_center.x as int,
            center_y: self.obstacle_center.y as int,
            radius: self.obstacle_radius as int,
            t: self.closest.t as int,
            qx: self.closest.q.x as int,
            qy: self.closest.q.y as int,
            dist: self.closest.dist as int,
        }
    }
}

/// The hit that obstacle `o` makes on segment `ab`.
pub open spec fn s_hit_of(a: Point, b: Point, o: Obstacle) -> HitG {
    HitG {
        obstacle_id: o.id as int,
        center_x: o.center.x as int,
        center_y: o.center.y as int,
        radius: o.radius as int,
        t: s_closest_t(o.center, a, b),
        qx: s_closest_qx(o.center, a, b),
        qy: s_closest_qy(o.center, a, b),
        dist: s_closest_dist(o.center, a, b),
    }
}

/// Facts that hold of every hit that the oracle reports on segment `ab`.
pub open spec fn hit_wf(h: Hit, a: Point, b: Point) -> bool {
    &&& h.obstacle_id > i64::MIN
    &&& 0 < h.closest.t < SCALE
    &&& 0 <= h.closest.dist < h.obstacle_radius <= MAX_UNIT
    &&& pt_in(h.obstacle_center, MAX_UNIT as int)
    &&& h.closest.t as int == s_closest_t(h.obstacle_center, a, b)
    &&& h.closest.q.x as int == s_closest_qx(h.obstacle_center, a, b)
    &&& h.closest.q.y as int == s_closest_qy(h.obstacle_center, a, b)
    &&& h.closest.dist as int == s_closest_dist(h.obstacle_center, a, b)
}

/// First collision on segment `ab` against `obs` in input order: the hit
/// with the smallest `t`, ties broken by smaller `dist`, further ties by the
/// earlier obstacle.
pub open spec fn s_first_collision(a: Point, b: Point, obs: Seq<Obstacle>) -> Option<HitG>
    decreases obs.len(),
{
    if obs.len() == 0 {
        None
    } else {
        let pre = s_first_collision(a, b, obs.drop_last());
        let o = obs.last();
        if s_interior_collision(a, b, o) {
            let h = s_hit_of(a, b, o);
            match pre {
                None => Some(h),
                Some(p) => if h.t < p.t || (h.t == p.t && h.dist < p.dist) {
                    Some(h)
                } else {
                    Some(p)
                },
            }
        } else {
            pre
        }
    }
}

pub fn first_collision_on_segment(a: Point, b: Point, obstacles: &Vec<Obstacle>) -> (r: Option<
    Hit,
>)
    requires
        pt_in(a, P_BOUND as int),
        pt_in(b, P_BOUND as int),
        wf_obs(obstacles@),
    ensures
        match r {
            None => s_first_collision(a, b, obstacles@) is None,
            Some(h) => s_first_collision(a, b, obstacles@) == Some(h.g()) && hit_wf(h, a, b),
        },
{
    let mut best: Option<Hit> = None;
    for i in 0..obstacles.len()
        invariant
            pt_in(a, P_BOUND as int),
            pt_in(b, P_BOUND as int),
            wf_obs(obstacles@),
            match best {
                None => s_first_collision(a, b, obstacles@.take(i as int)) is None,
                Some(h) => s_first_collision(a, b, obstacles@.take(i as int)) == Some(h.g())
                    && hit_wf(h, a, b),
            },
    {
        let o = &obstacles[i];
        let cp = closest_point_on_segment(o.center, a, b);
        proof {
            assert(obstacles@.take(i + 1).drop_last() =~= obstacles@.take(i as int));
            assert(obstacles@.take(i + 1).last() == obstacles@[i as int]);
        }
        let endpoint_only = cp.t <= 0 || cp.t >= SCALE;
        if !endpoint_only && cp.dist < o.radius {
            let h = Hit {
                obstacle_id: o.id,
                obstacle_center: o.center,
                obstacle_radius: o.radius,
                closest: cp,
            };
            best = match best {
                None => Some(h),
                Some(prev) => {
                    let better = h.closest.t < prev.closest.t || (h.closest.t == prev.closest.t
                        && h.closest.dist < prev.closest.dist);
                    if better {
                        Some(h)
                    } else {
                        Some(prev)
                    }
                },
            };
        }
    }
    proof {
        assert(obstacles@.take(obstacles@.len() as int) =~= obstacles@);
    }
    best
}

/// Penalty one obstacle adds for a segment that comes close to it.
pub open spec fn s_prox_one(
    a: Point,
    b: Point,
    o: Obstacle,
    margin: int,
    weight: int,
    excl: Option<i64>,
) -> int {
    if excl == Some(o.id) {
        0
    } else {
        let d = s_closest_dist(o.center, a, b);
        let warning = o.radius + margin;
        if d >= warning {
            0
        } else if d <= o.radius {
            s_fp_mul(weight, 10 * SCALE as int)
        } else {
            let x = (warning - d) * (SCALE as int) / margin;
            s_fp_mul(weight, s_fp_mul(x, x))
        }
    }
}

pub open spec fn s_prox_sum(
    a: Point,
    b: Point,
    obs: Seq<Obstacle>,
    margin: int,
    weight: int,
    excl: Option<i64>,
) -> int
    decreases obs.len(),
{
    if obs.len() == 0 {
        0
    } else {
        s_prox_sum(a, b, obs.drop_last(), margin, weight, excl) + s_prox_one(
            a,
            b,
            obs.last(),
            margin,
            weight,
            excl,
        )
    }
}

/// Total proximity penalty of segment `ab` against `obs`, zero when the
/// warning band or the weight is disabled.
pub open spec fn s_prox_pen(
    a: Point,
    b: Point,
    obs: Seq<Obstacle>,
    margin: int,
    weight: int,
    excl: Option<i64>,
) -> int {
    if margin <= 0 || weight <= 0 {
        0
    } else {
        s_prox_sum(a, b, obs, margin, weight, excl)
    }
}

/// Each obstacle contributes at most ten times the weight.
pub proof fn lemma_prox_one_bound(
    a: Point,
    b: Point,
    o: Obstacle,
    margin: int,
    weight: int,
    excl: Option<i64>,
)
    requires
        0 < margin,
        0 < weight,
    ensures
        0 <= s_prox_one(a, b, o, margin, weight, excl) <= 10 * weight,
{
    if excl != Some(o.id) {
        let d = s_closest_dist(o.center, a, b);
        let warning = o.radius + margin;
        assert(s_fp_mul(weight, 10 * SCALE as int) == 10 * weight) by (nonlinear_arith)
            requires
                0 < weight,
                SCALE == 10_000,
        ;
        if d < warning && d > o.radius {
            let x = (warning - d) * (SCALE as int) / margin;
            assert(0 <= x <= SCALE as int) by (nonlinear_arith)
                requires
                    0 < margin,
                    0 < warning - d <= margin,
                    x == (warning - d) * (SCALE as int) / margin,
            ;
            let x2 = s_fp_mul(x, x);
            assert(0 <= x2 <= SCALE as int) by (nonlinear_arith)
                requires
                    0 <= x <= SCALE as int,
                    x2 == x * x / (SCALE as int),
                    SCALE == 10_000,
            ;
            assert(0 <= s_fp_mul(weight, x2) <= 10 * weight) by (nonlinear_arith)
                requires
                    0 < weight,
                    0 <= x2 <= SCALE as int,
                    SCALE == 10_000,
                    s_fp_mul(weight, x2) == weight * x2 / (SCALE as int),
            ;
        }
    }
}

/// Proximity penalty with one obstacle excluded: the planner is not punished
/// for skirting the very obstacle it is detouring around.
pub fn proximity_penalty_excluding(
    a: Point,
    b: Point,
    obstacles: &Vec<Obstacle>,
    margin: i64,
    weight: i64,
    exclude_id: Option<i64>,
) -> (r: i64)
    requires
        pt_in(a, P_BOUND as int),
        pt_in(b, P_BOUND as int),
        wf_obs(obstacles@),
        weight <= MAX_UNIT,
        margin <= MAX_UNIT,
    ensures
        r as int == s_prox_pen(a, b, obstacles@, margin as int, weight as int, exclude_id),
        0 <= r <= (MAX_OBSTACLES as int) * 10 * MAX_UNIT as int,
{
    if margin <= 0 || weight <= 0 {
        return 0;
    }
    let mut pen: i64 = 0;
    let n = obstacles.len();
    for i in 0..n
        invariant
            pt_in(a, P_BOUND as int),
            pt_in(b, P_BOUND as int),
            wf_obs(obstacles@),
            n == obstacles@.len(),
            0 < margin <= MAX_UNIT,
            0 < weight <= MAX_UNIT,
            pen as int == s_prox_sum(
                a,
                b,
                obstacles@.take(i as int),
                margin as int,
                weight as int,
                exclude_id,
            ),
            0 <= pen as int <= (i as int) * 10 * weight as int,
    {
        let o = &obstacles[i];
        proof {
            assert(obstacles@.take(i + 1).drop_last() =~= obstacles@.take(i as int));
            assert(obstacles@.take(i + 1).last() == obstacles@[i as int]);
            lemma_prox_one_bound(a, b, obstacles@[i as int], margin as int, weight as int,
                exclude_id);
            assert((i as int) * 10 * (weight as int) + 10 * (weight as int) == (i + 1) * 10 * (
            weight as int)) by (nonlinear_arith);
            assert((i + 1) * 10 * (weight as int) <= (MAX_OBSTACLES as int) * 10 * (MAX_UNIT
                as int)) by (nonlinear_arith)
                requires
                    0 <= i + 1 <= MAX_OBSTACLES as int,
                    0 < weight as int <= MAX_UNIT as int,
            ;
        }
        let skip = match exclude_id {
            Some(eid) => eid == o.id,
            None => false,
        };
        if !skip {
            let cp = closest_point_on_segment(o.center, a, b);
            let warning = o.radius + margin;
            proof {
                assert(s_fp_mul(weight as int, 10 * SCALE as int) == 10 * (weight as int))
                    by (nonlinear_arith)
                    requires
                        0 < weight as int,
                        SCALE == 10_000,
                ;
            }
            if cp.dist >= warning {
                // outside the warning band
            } else if cp.dist <= o.radius {
                // should not happen on validated-safe segments; strong deterrent
                pen = pen + crate::fixed::fp_mul(weight, 10 * SCALE);
            } else {
                let xm = ((warning - cp.dist) as u128) * (SCALE as u128) / (margin as u128);
                assert(0 <= xm as int <= SCALE as int) by (nonlinear_arith)
                    requires
                        0 < margin as int,
                        0 < warning as int - cp.dist as int <= margin as int,
                        xm as int == (warning as int - cp.dist as int) * (SCALE as int) / (
                        margin as int),
                ;
                let x = xm as i64;
                proof {
                    assert(0 <= s_fp_mul(x as int, x as int) <= SCALE as int) by (nonlinear_arith)
                        requires
                            0 <= x as int <= SCALE as int,
                            s_fp_mul(x as int, x as int) == (x as int) * (x as int) / (SCALE
                                as int),
                            SCALE == 10_000,
                    ;
                    assert(forall|x2: int|
                        0 <= x2 <= SCALE as int ==> 0 <= #[trigger] s_fp_mul(weight as int, x2)
                            <= 10 * (weight as int)) by {
                        assert forall|x2: int| 0 <= x2 <= SCALE as int implies 0
                            <= #[trigger] s_fp_mul(weight as int, x2) <= 10 * (weight as int) by {
                            assert(0 <= s_fp_mul(weight as int, x2) <= 10 * (weight as int))
                                by (nonlinear_arith)
                                requires
                                    0 < weight as int,
                                    0 <= x2 <= SCALE as int,
                                    s_fp_mul(weight as int, x2) == (weight as int) * x2 / (SCALE
                                        as int),
                                    SCALE == 10_000,
                            ;
                        }
                    }
                }
                pen = pen + crate::fixed::fp_mul(weight, crate::fixed::fp_mul(x, x));
            }
        }
    }
    proof {
        assert(obstacles@.take(n as int) =~= obstacles@);
        assert((n as int) * 10 * (weight as int) <= (MAX_OBSTACLES as int) * 10 * (MAX_UNIT
            as int)) by (nonlinear_arith)
            requires
                0 <= n as int <= MAX_OBSTACLES as int,
                0 < weight as int <= MAX_UNIT as int,
        ;
    }
    pen
}

/// Proximity penalty of a segment against the whole obstacle set.
pub fn proximity_penalty_for_segment(
    a: Point,
    b: Point,
    obstacles: &Vec<Obstacle>,
    margin: i64,
    weight: i64,
) -> (r: i64)
    requires
        pt_in(a, P_BOUND as int),
        pt_in(b, P_BOUND as int),
        wf_obs(obstacles@),
        weight <= MAX_UNIT,
        margin <= MAX_UNIT,
    ensures
        r as int == s_prox_pen(a, b, obstacles@, margin as int, weight as int, None),
{
    proximity_penalty_excluding(a, b, obstacles, margin, weight, None)
}

/// A clear segment is exactly one without a first collision.
pub proof fn lemma_first_collision_none_iff_safe(a: Point, b: Point, obs: Seq<Obstacle>)
    ensures
        (s_first_collision(a, b, obs) is None) <==> s_segment_safe(a, b, obs),
    decreases obs.len(),
{
    if obs.len() == 0 {
    } else {
        lemma_first_collision_none_iff_safe(a, b, obs.drop_last());
        assert(forall|i: int| 0 <= i < obs.len() - 1 ==> obs.drop_last()[i] == #[trigger] obs[i]);
        if s_segment_safe(a, b, obs) {
            assert(!s_interior_collision(a, b, obs.last()));
            assert(s_segment_safe(a, b, obs.drop_last()));
        }
        if s_first_collision(a, b, obs) is None {
            assert(!s_interior_collision(a, b, obs.last()));
            assert forall|i: int|
                0 <= i < obs.len() implies !s_interior_collision(a, b, #[trigger] obs[i]) by {
                if i < obs.len() - 1 {
                    assert(obs[i] == obs.drop_last()[i]);
                } else {
                    assert(obs[i] == obs.last());
                }
            }
        }
    }
}

/// An obstacle centered on an endpoint of a segment never collides with the
/// segment's interior.
pub proof fn lemma_endpoint_obstacle_never_interior(a: Point, b: Point, o: Obstacle)
    requires
        o.center == a || o.center == b,
    ensures
        !s_interior_collision(a, b, o),
{
    let abx = b.x - a.x as int;
    let aby = b.y - a.y as int;
    let ab2 = abx * abx + aby * aby;
    if o.center == a {
        assert(s_closest_t(o.center, a, b) == 0);
    } else {
        let dt = (o.center.x - a.x as int) * abx + (o.center.y - a.y as int) * aby;
        assert(dt == ab2);
        if ab2 != 0 {
            assert(ab2 > 0) by (nonlinear_arith)
                requires
                    ab2 == abx * abx + aby * aby,
                    ab2 != 0,
            ;
            assert(dt * (SCALE as int) / ab2 >= SCALE as int) by (nonlinear_arith)
                requires
                    dt == ab2,
                    ab2 > 0,
                    SCALE == 10_000,
            ;
            assert(s_closest_t(o.center, a, b) == SCALE as int);
        }
    }
}

/// Adding an obstacle centered on an endpoint of the segment leaves the
/// oracle's answer unchanged: such an obstacle can never fail a compute.
pub proof fn lemma_endpoint_obstacle_ignored(a: Point, b: Point, obs: Seq<Obstacle>, o: Obstacle)
    requires
        o.center == a || o.center == b,
    ensures
        s_first_collision(a, b, obs.push(o)) == s_first_collision(a, b, obs),
{
    lemma_endpoint_obstacle_never_interior(a, b, o);
    assert(obs.push(o).drop_last() =~= obs);
    assert(obs.push(o).last() == o);
}

proof fn lemma_t_mul_fits(dt: int)
    requires
        0 <= dt <= 8 * (P_BOUND as int) * (P_BOUND as int),
    ensures
        dt * (SCALE as int) <= u128::MAX,
{
    assert(dt * (SCALE as int) <= u128::MAX) by (nonlinear_arith)
        requires
            0 <= dt <= 8 * (P_BOUND as int) * (P_BOUND as int),
            P_BOUND == 3_000_000_000_000_000i64,
            SCALE == 10_000,
    ;
}

/// The closest point's coordinates stay between the segment's endpoints.
pub proof fn lemma_q_between(ax: int, bx: int, t: int, bnd: int)
    requires
        s_abs(ax) <= bnd,
        s_abs(bx) <= bnd,
        0 <= t <= SCALE as int,
    ensures
        s_abs(ax + s_fp_mul(bx - ax, t)) <= bnd,
{
    let c = bx - ax;
    let m = s_fp_mul(c, t);
    assert(if c >= 0 {
        0 <= m <= c
    } else {
        c <= m <= 0
    }) by (nonlinear_arith)
        requires
            0 <= t <= SCALE as int,
            m == if (c < 0) != (t < 0) {
                -((s_abs(c) * s_abs(t)) / (SCALE as int))
            } else {
                (s_abs(c) * s_abs(t)) / (SCALE as int)
            },
            SCALE == 10_000,
    ;
}

/// Scaling a segment vector by `t` in `[0, SCALE]` keeps each component's
/// magnitude, so `q` stays within twice the point bound.
proof fn lemma_mul_t_keeps_bound(c: int, t: int)
    requires
        0 <= t <= SCALE as int,
        s_abs(c) <= 2 * P_BOUND as int,
    ensures
        s_abs(s_fp_mul(c, t)) <= s_abs(c),
        s_abs(c) * s_abs(t) <= (crate::geometry::GEO_BOUND as int) * (SCALE as int),
{
    assert(s_abs(c) * s_abs(t) <= (crate::geometry::GEO_BOUND as int) * (SCALE as int))
        by (nonlinear_arith)
        requires
            0 <= t <= SCALE as int,
            s_abs(c) <= 2 * P_BOUND as int,
            s_abs(t) == t,
            P_BOUND == 3_000_000_000_000_000i64,
            crate::geometry::GEO_BOUND == 2_000_000_000_000_000_000i64,
            SCALE == 10_000,
    ;
    assert(s_abs(c) * s_abs(t) / (SCALE as int) <= s_abs(c)) by (nonlinear_arith)
        requires
            0 <= s_abs(t) <= SCALE as int,
            0 <= s_abs(c),
            SCALE == 10_000,
    ;
}

} // verus!
