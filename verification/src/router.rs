//! Route planner: detour candidate generation, candidate scoring, and the
//! iterative detect / generate / score / insert loop.
//!
//! Every executable function is pinned to a spec-level model, so a compute
//! is a pure function of `(start, end, obstacles, options)`: two calls on
//! equal inputs yield equal routes, detours included.

use vstd::prelude::*;

use crate::collision::{
    first_collision_on_segment, is_segment_safe, proximity_penalty_excluding, s_first_collision,
    s_prox_pen, s_segment_safe, wf_obs, HitG, Hit, Obstacle,
};
use crate::fixed::{
    s_abs, s_clamp, s_fp_mul, s_max, s_min, ITER_SLACK, MAX_ITERS_CAP, MAX_OBSTACLES,
    MAX_OFFSET_TRIES_CAP, MAX_UNIT, OFFSET_CAP, P_BOUND, SCALE,
};
use crate::geometry::{normalize, perp, pt_in, s_dist, s_ux, s_uy, Point};

verus! {

/// Largest distance between two points the planner can construct.
pub const SEG_MAX: i64 = 8_500_000_000_000_000;

/// Planner options; scalars are fixed-point units (`SCALE` per parsec).
#[derive(Debug, Clone, Copy, PartialEq, Eq, Structural)]
pub struct RouteOptions {
    pub clearance: i64,
    pub max_iters: usize,
    pub max_offset_tries: usize,
    pub offset_growth: i64,
    pub turn_weight: i64,
    pub back_weight: i64,
    pub proximity_weight: i64,
    pub proximity_margin: i64,
}

impl Default for RouteOptions {
    /// Tuned defaults: clearance 0.2, growth 1.4, turn 0.8, back 3.0,
    /// proximity 1.5 with a 0.5 warning band, all in parsec units.
    fn default() -> (r: Self)
        ensures
            r == RouteOptions::spec_default(),
    {
        RouteOptions {
            clearance: 2_000,
            max_iters: 32,
            max_offset_tries: 6,
            offset_growth: 14_000,
            turn_weight: 8_000,
            back_weight: 30_000,
            proximity_weight: 15_000,
            proximity_margin: 5_000,
        }
    }
}

impl RouteOptions {
    pub open spec fn spec_default() -> RouteOptions {
        RouteOptions {
            clearance: 2_000,
            max_iters: 32,
            max_offset_tries: 6,
            offset_growth: 14_000,
            turn_weight: 8_000,
            back_weight: 30_000,
            proximity_weight: 15_000,
            proximity_margin: 5_000,
        }
    }
}

/// Bounds under which the planner's arithmetic cannot overflow.
pub open spec fn opts_in_bounds(o: RouteOptions) -> bool {
    &&& 0 <= o.clearance <= MAX_UNIT
    &&& 0 <= o.turn_weight <= MAX_UNIT
    &&& 0 <= o.back_weight <= MAX_UNIT
    &&& 0 <= o.proximity_weight <= MAX_UNIT
    &&& 0 <= o.proximity_margin <= MAX_UNIT
    &&& o.max_iters <= MAX_ITERS_CAP
    &&& o.max_offset_tries <= MAX_OFFSET_TRIES_CAP
    &&& 0 <= o.offset_growth
}

/// Score breakdown of one detour candidate; lower totals are better.
#[derive(Debug, Clone, Copy, PartialEq, Eq, Structural)]
pub struct CandidateScore {
    pub base: i64,
    pub turn: i64,
    pub back: i64,
    pub proximity: i64,
}

/// Ghost image of a score.
pub ghost struct ScoreG {
    pub base: int,
    pub turn: int,
    pub back: int,
    pub prox: int,
}

pub open spec fn score_wf(s: CandidateScore) -> bool {
    &&& 0 <= s.base <= 2 * (SEG_MAX as int)
    &&& 0 <= s.turn <= 2 * (MAX_UNIT as int)
    &&& 0 <= s.back <= 2 * (MAX_UNIT as int)
    &&& 0 <= s.proximity <= 2 * (MAX_OBSTACLES as int) * 10 * (MAX_UNIT as int)
}

pub open spec fn score_g_total(s: ScoreG) -> int {
    s.base + s.turn + s.back + s.prox
}

impl CandidateScore {
    pub open spec fn g(self) -> ScoreG {
        ScoreG {
            base: self.base as int,
            turn: self.turn as int,
            back: self.back as int,
            prox: self.proximity as int,
        }
    }

    /// Total score: the sum of the four components.
    pub fn total(&self) -> (r: i64)
        requires
            score_wf(*self),
        ensures
            r as int == score_g_total(self.g()),
    {
        self.base + self.turn + self.back + self.proximity
    }
}

/// Truncated fixed-point dot product of two fixed-point unit vectors.
pub open spec fn s_fp_dot(x1: int, y1: int, x2: int, y2: int) -> int {
    let n = x1 * x2 + y1 * y2;
    if n < 0 {
        -((-n) / (SCALE as int))
    } else {
        n / (SCALE as int)
    }
}

fn fp_dot_unit(a: Point, b: Point) -> (r: i64)
    requires
        pt_in(a, SCALE as int),
        pt_in(b, SCALE as int),
    ensures
        r as int == s_fp_dot(a.x as int, a.y as int, b.x as int, b.y as int),
        s_abs(r as int) <= 2 * (SCALE as int),
{
    proof {
        assert(s_abs((a.x as int) * (b.x as int) + (a.y as int) * (b.y as int)) <= 2 * (SCALE
            as int) * (SCALE as int)) by (nonlinear_arith)
            requires
                s_abs(a.x as int) <= SCALE as int,
                s_abs(a.y as int) <= SCALE as int,
                s_abs(b.x as int) <= SCALE as int,
                s_abs(b.y as int) <= SCALE as int,
        ;
    }
    proof {
        assert(s_abs((a.x as int) * (b.x as int)) <= (SCALE as int) * (SCALE as int)
            && s_abs((a.y as int) * (b.y as int)) <= (SCALE as int) * (SCALE as int))
            by (nonlinear_arith)
            requires
                s_abs(a.x as int) <= SCALE as int,
                s_abs(a.y as int) <= SCALE as int,
                s_abs(b.x as int) <= SCALE as int,
                s_abs(b.y as int) <= SCALE as int,
        ;
    }
    let n = a.x * b.x + a.y * b.y;
    if n < 0 {
        let q = (-n) / SCALE;
        assert(0 <= q as int <= 2 * (SCALE as int)) by (nonlinear_arith)
            requires
                0 < -(n as int) <= 2 * (SCALE as int) * (SCALE as int),
                q as int == (-(n as int)) / (SCALE as int),
                SCALE == 10_000,
        ;
        -q
    } else {
        let q = n / SCALE;
        assert(0 <= q as int <= 2 * (SCALE as int)) by (nonlinear_arith)
            requires
                0 <= n as int <= 2 * (SCALE as int) * (SCALE as int),
                q as int == (n as int) / (SCALE as int),
                SCALE == 10_000,
        ;
        q
    }
}

/// A point from model coordinates; used only on values within `i64` range.
pub open spec fn pt_of(x: int, y: int) -> Point {
    Point { x: x as i64, y: y as i64 }
}

/// The ordered candidate waypoints around hit `h` on segment `ab` at a given
/// offset: outward push (when defined), the two laterals, forward, backward,
/// and the two diagonals.
#[verifier::opaque]
pub open spec fn s_candidates(a: Point, b: Point, h: HitG, offset: int) -> Seq<Point> {
    let dirx = s_ux(b.x - a.x as int, b.y - a.y as int);
    let diry = s_uy(b.x - a.x as int, b.y - a.y as int);
    let nx = -diry;
    let ny = dirx;
    let qx = h.qx;
    let qy = h.qy;
    let ux = s_ux(qx - h.center_x, qy - h.center_y);
    let uy = s_uy(qx - h.center_x, qy - h.center_y);
    let push = s_max(h.radius - h.dist, 0) + offset;
    let d1x = s_ux(dirx + nx, diry + ny);
    let d1y = s_uy(dirx + nx, diry + ny);
    let d2x = s_ux(dirx - nx, diry - ny);
    let d2y = s_uy(dirx - nx, diry - ny);
    let head: Seq<Point> = if ux == 0 && uy == 0 {
        Seq::empty()
    } else {
        seq![pt_of(qx + s_fp_mul(ux, push), qy + s_fp_mul(uy, push))]
    };
    head + seq![
        pt_of(qx + s_fp_mul(nx, offset), qy + s_fp_mul(ny, offset)),
        pt_of(qx - s_fp_mul(nx, offset), qy - s_fp_mul(ny, offset)),
        pt_of(qx + s_fp_mul(dirx, offset), qy + s_fp_mul(diry, offset)),
        pt_of(qx - s_fp_mul(dirx, offset), qy - s_fp_mul(diry, offset)),
        pt_of(qx + s_fp_mul(d1x, offset), qy + s_fp_mul(d1y, offset)),
        pt_of(qx + s_fp_mul(d2x, offset), qy + s_fp_mul(d2y, offset)),
    ]
}

/// Scaling a unit component by a length keeps magnitude below the length.
proof fn lemma_unit_scale(c: int, k: int)
    requires
        s_abs(c) <= SCALE as int,
        0 <= k <= (OFFSET_CAP as int) + (MAX_UNIT as int),
    ensures
        s_abs(c) * s_abs(k) <= (crate::geometry::GEO_BOUND as int) * (SCALE as int),
        s_abs(s_fp_mul(c, k)) <= k,
        i64::MIN <= s_fp_mul(c, k) <= i64::MAX,
{
    assert(s_abs(c) * s_abs(k) <= (crate::geometry::GEO_BOUND as int) * (SCALE as int))
        by (nonlinear_arith)
        requires
            s_abs(c) <= SCALE as int,
            0 <= k <= (OFFSET_CAP as int) + (MAX_UNIT as int),
            s_abs(k) == k,
            SCALE == 10_000,
            OFFSET_CAP == 150_000_000_000i64,
            MAX_UNIT == 10_000_000_000i64,
            crate::geometry::GEO_BOUND == 2_000_000_000_000_000_000i64,
    ;
    assert(s_abs(s_fp_mul(c, k)) * (SCALE as int) <= s_abs(c) * s_abs(k) + (SCALE as int - 1) * 1)
        by (nonlinear_arith)
        requires
            s_fp_mul(c, k) == if (c < 0) != (k < 0) {
                -((s_abs(c) * s_abs(k)) / (SCALE as int))
            } else {
                (s_abs(c) * s_abs(k)) / (SCALE as int)
            },
            0 <= s_abs(c) * s_abs(k),
            SCALE == 10_000,
    ;
    assert(s_abs(s_fp_mul(c, k)) <= k) by (nonlinear_arith)
        requires
            s_abs(s_fp_mul(c, k)) * (SCALE as int) <= s_abs(c) * s_abs(k) + (SCALE as int - 1),
            s_abs(c) <= SCALE as int,
            0 <= k,
            s_abs(k) == k,
            SCALE == 10_000,
    ;
}

/// Produce the ordered candidate waypoints for one hit at one offset.
#[verifier::rlimit(100)]
#[verifier::spinoff_prover]
fn detour_candidates(a: Point, b: Point, hit: &Hit, offset: i64, bd: Ghost<int>) -> (r: Vec<Point>)
    requires
        0 <= bd@,
        bd@ + ITER_SLACK as int <= P_BOUND as int,
        pt_in(a, bd@),
        pt_in(b, bd@),
        pt_in(hit.closest.q, bd@),
        pt_in(hit.obstacle_center, MAX_UNIT as int),
        0 <= hit.obstacle_radius <= MAX_UNIT,
        0 <= hit.closest.dist,
        0 < offset <= OFFSET_CAP,
    ensures
        r@ == s_candidates(a, b, hit.g(), offset as int),
        forall|i: int| 0 <= i < r@.len() ==> pt_in(#[trigger] r@[i], bd@ + ITER_SLACK as int),
{
    let ghost bound: int = bd@ + ITER_SLACK as int;
    let dir = normalize(crate::geometry::sub(b, a));
    let n = perp(dir);
    let q = hit.closest.q;
    let c = hit.obstacle_center;
    let d = hit.closest.dist;

    // outward radial from the obstacle's center through the closest point
    let u = normalize(crate::geometry::sub(q, c));

    // enough push to leave the disc, plus the current offset
    let gap = if hit.obstacle_radius > d {
        hit.obstacle_radius - d
    } else {
        0
    };
    let push = gap + offset;

    proof {
        lemma_unit_scale(u.x as int, push as int);
        lemma_unit_scale(u.y as int, push as int);
        lemma_unit_scale(dir.x as int, offset as int);
        lemma_unit_scale(dir.y as int, offset as int);
        lemma_unit_scale(n.x as int, offset as int);
        lemma_unit_scale(n.y as int, offset as int);
    }
    let c1 = crate::geometry::add(q, crate::geometry::mul(u, push));
    let c2 = crate::geometry::add(q, crate::geometry::mul(n, offset));
    let c3 = crate::geometry::sub(q, crate::geometry::mul(n, offset));
    let c4 = crate::geometry::add(q, crate::geometry::mul(dir, offset));
    let c5 = crate::geometry::sub(q, crate::geometry::mul(dir, offset));

    let d1 = normalize(crate::geometry::add(dir, n));
    let d2 = normalize(crate::geometry::sub(dir, n));
    proof {
        lemma_unit_scale(d1.x as int, offset as int);
        lemma_unit_scale(d1.y as int, offset as int);
        lemma_unit_scale(d2.x as int, offset as int);
        lemma_unit_scale(d2.y as int, offset as int);
    }
    let c6 = crate::geometry::add(q, crate::geometry::mul(d1, offset));
    let c7 = crate::geometry::add(q, crate::geometry::mul(d2, offset));

    let mut out: Vec<Point> = Vec::new();
    if !(u.x == 0 && u.y == 0) {
        out.push(c1);
    }
    out.push(c2);
    out.push(c3);
    out.push(c4);
    out.push(c5);
    out.push(c6);
    out.push(c7);

    proof {
        reveal(s_candidates);
        let g = s_candidates(a, b, hit.g(), offset as int);
        let tail = seq![c2, c3, c4, c5, c6, c7];
        assert(g =~= if u.x == 0 && u.y == 0 {
            tail
        } else {
            seq![c1] + tail
        }) by {
            assert(pt_in(c1, bound) && pt_in(c2, bound) && pt_in(c3, bound) && pt_in(c4, bound)
                && pt_in(c5, bound) && pt_in(c6, bound) && pt_in(c7, bound));
        }
        assert(out@ =~= g);
        assert(forall|i: int| 0 <= i < out@.len() ==> pt_in(#[trigger] out@[i], bound));
    }
    out
}

/// The score model of one candidate: `None` when either leg collides.
#[verifier::opaque]
pub open spec fn s_evaluate(
    a: Point,
    w: Point,
    b: Point,
    obs: Seq<Obstacle>,
    opts: RouteOptions,
    excl: Option<i64>,
) -> Option<ScoreG> {
    if !s_segment_safe(a, w, obs) || !s_segment_safe(w, b, obs) {
        None
    } else {
        let base = s_dist(a, w) + s_dist(w, b);
        let u1x = s_ux(w.x - a.x as int, w.y - a.y as int);
        let u1y = s_uy(w.x - a.x as int, w.y - a.y as int);
        let u2x = s_ux(b.x - w.x as int, b.y - w.y as int);
        let u2y = s_uy(b.x - w.x as int, b.y - w.y as int);
        let turn = if (u1x == 0 && u1y == 0) || (u2x == 0 && u2y == 0) {
            0
        } else {
            let cos = s_clamp(s_fp_dot(u1x, u1y, u2x, u2y), -(SCALE as int), SCALE as int);
            s_fp_mul(opts.turn_weight as int, SCALE as int - cos)
        };
        let abx = s_ux(b.x - a.x as int, b.y - a.y as int);
        let aby = s_uy(b.x - a.x as int, b.y - a.y as int);
        let back = if (abx == 0 && aby == 0) || (u1x == 0 && u1y == 0) {
            0
        } else {
            let progress = s_fp_dot(abx, aby, u1x, u1y);
            s_fp_mul(opts.back_weight as int, s_max(-progress, 0))
        };
        let prox = s_prox_pen(a, w, obs, opts.proximity_margin as int, opts.proximity_weight as int,
            excl) + s_prox_pen(w, b, obs, opts.proximity_margin as int, opts.proximity_weight
            as int, excl);
        Some(ScoreG { base, turn, back, prox })
    }
}

/// Score one candidate waypoint, or reject it when a leg collides.
fn evaluate_candidate(
    a: Point,
    w: Point,
    b: Point,
    obstacles: &Vec<Obstacle>,
    opts: RouteOptions,
    exclude_obstacle_id: Option<i64>,
) -> (r: Option<CandidateScore>)
    requires
        pt_in(a, P_BOUND as int),
        pt_in(w, P_BOUND as int),
        pt_in(b, P_BOUND as int),
        wf_obs(obstacles@),
        opts_in_bounds(opts),
    ensures
        match r {
            None => s_evaluate(a, w, b, obstacles@, opts, exclude_obstacle_id) is None,
            Some(s) => s_evaluate(a, w, b, obstacles@, opts, exclude_obstacle_id) == Some(s.g())
                && score_wf(s),
        },
{
    proof {
        reveal(s_evaluate);
    }
    if !is_segment_safe(a, w, obstacles) {
        return None;
    }
    if !is_segment_safe(w, b, obstacles) {
        return None;
    }

    proof {
        lemma_seg_dist(a, w);
        lemma_seg_dist(w, b);
    }
    let base = crate::geometry::dist(a, w) + crate::geometry::dist(w, b);

    let u1 = normalize(crate::geometry::sub(w, a));
    let u2 = normalize(crate::geometry::sub(b, w));

    let mut turn: i64 = 0;
    if !(u1.x == 0 && u1.y == 0 || u2.x == 0 && u2.y == 0) {
        let cos_theta = crate::geometry::clamp(fp_dot_unit(u1, u2), -SCALE, SCALE);
        proof {
            lemma_weight_scale(opts.turn_weight as int, SCALE as int - cos_theta as int);
        }
        turn = crate::fixed::fp_mul(opts.turn_weight, SCALE - cos_theta);
    }

    let ab_dir = normalize(crate::geometry::sub(b, a));
    let aw_dir = normalize(crate::geometry::sub(w, a));

    let mut back: i64 = 0;
    if !(ab_dir.x == 0 && ab_dir.y == 0 || aw_dir.x == 0 && aw_dir.y == 0) {
        let progress = fp_dot_unit(ab_dir, aw_dir);
        let backward = if -progress > 0 {
            -progress
        } else {
            0
        };
        proof {
            lemma_weight_scale(opts.back_weight as int, backward as int);
        }
        back = crate::fixed::fp_mul(opts.back_weight, backward);
    }

    let proximity = proximity_penalty_excluding(
        a,
        w,
        obstacles,
        opts.proximity_margin,
        opts.proximity_weight,
        exclude_obstacle_id,
    ) + proximity_penalty_excluding(
        w,
        b,
        obstacles,
        opts.proximity_margin,
        opts.proximity_weight,
        exclude_obstacle_id,
    );

    Some(CandidateScore { base, turn, back, proximity })
}

/// Distance between two planner points stays within `SEG_MAX`.
proof fn lemma_seg_dist(a: Point, b: Point)
    requires
        pt_in(a, P_BOUND as int),
        pt_in(b, P_BOUND as int),
    ensures
        0 <= s_dist(a, b) <= SEG_MAX as int,
{
    let dx = a.x - b.x as int;
    let dy = a.y - b.y as int;
    assert(0 <= dx * dx + dy * dy < (SEG_MAX as int + 1) * (SEG_MAX as int + 1))
        by (nonlinear_arith)
        requires
            s_abs(dx) <= 2 * (P_BOUND as int),
            s_abs(dy) <= 2 * (P_BOUND as int),
            P_BOUND == 3_000_000_000_000_000i64,
            SEG_MAX == 8_500_000_000_000_000i64,
    ;
    crate::fixed::lemma_isqrt_le(dx * dx + dy * dy, SEG_MAX as int);
}

/// A non-negative weight scaled by a factor in `[0, 2*SCALE]` stays within
/// twice the weight.
proof fn lemma_weight_scale(w: int, f: int)
    requires
        0 <= w <= MAX_UNIT as int,
        0 <= f <= 2 * (SCALE as int),
    ensures
        0 <= s_fp_mul(w, f) <= 2 * w,
        s_fp_mul(w, f) <= 2 * (MAX_UNIT as int),
{
    assert(0 <= s_fp_mul(w, f) <= 2 * w) by (nonlinear_arith)
        requires
            0 <= w,
            0 <= f <= 2 * (SCALE as int),
            s_fp_mul(w, f) == (w * f) / (SCALE as int),
            SCALE == 10_000,
    ;
}


/// One recorded detour decision, fully self-describing.
#[derive(Debug, Clone)]
pub struct DetourDecision {
    /// Iteration at which the insertion happened.
    pub iteration: usize,
    /// Index of the split segment in the polyline at decision time.
    pub segment_index: usize,
    pub obstacle_id: i64,
    pub obstacle_name: String,
    pub obstacle_center: Point,
    pub obstacle_radius: i64,
    /// Closest-point record at collision time.
    pub closest_t: i64,
    pub closest_q: Point,
    pub closest_dist: i64,
    /// Offset at which the chosen candidate was produced.
    pub offset_used: i64,
    /// The waypoint inserted into the polyline.
    pub waypoint: Point,
    pub score: CandidateScore,
    /// Offset tries consumed before a valid detour was found, starting at 1.
    pub tries_used: usize,
    /// True exactly when the solution came on the last allowed try.
    pub tries_exhausted: bool,
}

/// Ghost image of a detour decision.
pub ghost struct DetourG {
    pub iteration: nat,
    pub segment_index: nat,
    pub obstacle_id: int,
    pub obstacle_name: Seq<char>,
    pub center_x: int,
    pub center_y: int,
    pub radius: int,
    pub t: int,
    pub qx: int,
    pub qy: int,
    pub dist: int,
    pub offset_used: int,
    pub waypoint: Point,
    pub score: ScoreG,
    pub tries_used: nat,
    pub tries_exhausted: bool,
}

impl DetourDecision {
    pub open spec fn g(self) -> DetourG {
        DetourG {
            iteration: self.iteration as nat,
            segment_index: self.segment_index as nat,
            obstacle_id: self.obstacle_id as int,
            obstacle_name: self.obstacle_name@,
            center_x: self.obstacle_center.x as int,
            center_y: self.obstacle_center.y as int,
            radius: self.obstacle_radius as int,
            t: self.closest_t as int,
            qx: self.closest_q.x as int,
            qy: self.closest_q.y as int,
            dist: self.closest_dist as int,
            offset_used: self.offset_used as int,
            waypoint: self.waypoint,
            score: self.score.g(),
            tries_used: self.tries_used as nat,
            tries_exhausted: self.tries_exhausted,
        }
    }
}

/// A computed route: the polyline, its length, and the detour story.
#[derive(Debug, Clone)]
pub struct Route {
    pub waypoints: Vec<Point>,
    pub length: i64,
    pub iterations: usize,
    pub detours: Vec<DetourDecision>,
}

/// Ghost image of a route.
pub ghost struct RouteG {
    pub waypoints: Seq<Point>,
    pub length: int,
    pub iterations: nat,
    pub detours: Seq<DetourG>,
}

impl Route {
    pub open spec fn g(self) -> RouteG {
        RouteG {
            waypoints: self.waypoints@,
            length: self.length as int,
            iterations: self.iterations as nat,
            detours: self.detours@.map_values(|d: DetourDecision| d.g()),
        }
    }
}

/// Why a compute failed.
#[derive(Debug, Clone, Copy, PartialEq, Eq, Structural)]
pub enum RouteError {
    /// `max_offset_tries` was zero or `offset_growth` not above one.
    InvalidOptions,
    /// No candidate at any allowed offset was collision-free.
    NoDetour { obstacle_id: i64, segment_index: usize },
    /// The iteration cap was reached before the polyline was clear.
    MaxItersExceeded,
}

/// Total length of a polyline: the sum of its segment distances.
pub open spec fn s_polyline_len(wps: Seq<Point>) -> int
    decreases wps.len(),
{
    if wps.len() <= 1 {
        0
    } else {
        s_polyline_len(wps.drop_last()) + s_dist(wps[wps.len() - 2], wps[wps.len() - 1])
    }
}

/// The display name of the first obstacle with the given id.
pub open spec fn s_name_of(obs: Seq<Obstacle>, id: int) -> Seq<char>
    decreases obs.len(),
{
    if obs.len() == 0 {
        "<unknown>"@
    } else if obs[0].id == id {
        obs[0].name@
    } else {
        s_name_of(obs.drop_first(), id)
    }
}

/// The earliest colliding segment of the polyline, scanning from `i`.
pub open spec fn s_first_bad_seg(wps: Seq<Point>, obs: Seq<Obstacle>, i: nat) -> Option<
    (nat, HitG),
>
    decreases wps.len() - i,
{
    if i + 1 >= wps.len() {
        None
    } else {
        match s_first_collision(wps[i as int], wps[i as int + 1], obs) {
            Some(h) => Some((i, h)),
            None => s_first_bad_seg(wps, obs, (i + 1) as nat),
        }
    }
}

/// The next offset: grown by `offset_growth`, capped at `OFFSET_CAP`.
pub open spec fn s_next_offset(offset: int, growth: int) -> int {
    s_min((offset * growth) / (SCALE as int), OFFSET_CAP as int)
}

/// Best-scored candidate of a batch: strict improvement only, so the
/// earliest candidate wins ties.
pub open spec fn s_best_candidate(
    a: Point,
    b: Point,
    cands: Seq<Point>,
    obs: Seq<Obstacle>,
    opts: RouteOptions,
    excl: Option<i64>,
) -> Option<(Point, ScoreG)>
    decreases cands.len(),
{
    if cands.len() == 0 {
        None
    } else {
        let pre = s_best_candidate(a, b, cands.drop_last(), obs, opts, excl);
        let w = cands.last();
        match s_evaluate(a, w, b, obs, opts, excl) {
            None => pre,
            Some(sc) => match pre {
                None => Some((w, sc)),
                Some(p) => if score_g_total(sc) < score_g_total(p.1) {
                    Some((w, sc))
                } else {
                    pre
                },
            },
        }
    }
}

/// The expanding-offset search: candidates at the current offset, stopping
/// at the first try that yields any valid candidate.
pub open spec fn s_offset_search(
    a: Point,
    b: Point,
    h: HitG,
    obs: Seq<Obstacle>,
    opts: RouteOptions,
    try_idx: nat,
    offset: int,
) -> Option<(Point, ScoreG, int, nat)>
    decreases opts.max_offset_tries - try_idx,
{
    if try_idx >= opts.max_offset_tries {
        None
    } else {
        match s_best_candidate(
            a,
            b,
            s_candidates(a, b, h, offset),
            obs,
            opts,
            Some(h.obstacle_id as i64),
        ) {
            Some((w, sc)) => Some((w, sc, offset, try_idx)),
            None => s_offset_search(
                a,
                b,
                h,
                obs,
                opts,
                (try_idx + 1) as nat,
                s_next_offset(offset, opts.offset_growth as int),
            ),
        }
    }
}

/// One planning state stepped to its final outcome.
pub open spec fn s_plan(
    wps: Seq<Point>,
    dets: Seq<DetourG>,
    iters: nat,
    obs: Seq<Obstacle>,
    opts: RouteOptions,
) -> Result<RouteG, RouteError>
    decreases opts.max_iters - iters,
{
    if iters >= opts.max_iters {
        Err(RouteError::MaxItersExceeded)
    } else {
        match s_first_bad_seg(wps, obs, 0) {
            None => Ok(
                RouteG {
                    waypoints: wps,
                    length: s_polyline_len(wps),
                    iterations: iters,
                    detours: dets,
                },
            ),
            Some((si, h)) => {
                let aa = wps[si as int];
                let bb = wps[si as int + 1];
                match s_offset_search(aa, bb, h, obs, opts, 0, h.radius + opts.clearance) {
                    None => Err(
                        RouteError::NoDetour {
                            obstacle_id: h.obstacle_id as i64,
                            segment_index: si as usize,
                        },
                    ),
                    Some((w, sc, off, tidx)) => {
                        let det = DetourG {
                            iteration: iters,
                            segment_index: si,
                            obstacle_id: h.obstacle_id,
                            obstacle_name: s_name_of(obs, h.obstacle_id),
                            center_x: h.center_x,
                            center_y: h.center_y,
                            radius: h.radius,
                            t: h.t,
                            qx: h.qx,
                            qy: h.qy,
                            dist: h.dist,
                            offset_used: off,
                            waypoint: w,
                            score: sc,
                            tries_used: tidx + 1,
                            tries_exhausted: tidx + 1 == opts.max_offset_tries,
                        };
                        s_plan(wps.insert(si as int + 1, w), dets.push(det), (iters + 1) as nat,
                            obs, opts)
                    },
                }
            },
        }
    }
}

/// The planner as a pure function of its inputs.
pub open spec fn s_compute_route(
    start: Point,
    end: Point,
    obs: Seq<Obstacle>,
    opts: RouteOptions,
) -> Result<RouteG, RouteError> {
    if start == end {
        Ok(RouteG { waypoints: seq![start], length: 0, iterations: 0, detours: Seq::empty() })
    } else if opts.max_offset_tries == 0 {
        Err(RouteError::InvalidOptions)
    } else if opts.offset_growth <= SCALE {
        Err(RouteError::InvalidOptions)
    } else {
        s_plan(seq![start, end], Seq::empty(), 0, obs, opts)
    }
}



/// Bounds on one detour record under which it can be fingerprinted and
/// persisted.
pub open spec fn detour_persistable(d: DetourDecision) -> bool {
    &&& score_wf(d.score)
    &&& pt_in(d.waypoint, P_BOUND as int)
    &&& pt_in(d.obstacle_center, MAX_UNIT as int)
    &&& d.obstacle_id > i64::MIN
    &&& d.iteration <= MAX_ITERS_CAP
    &&& d.segment_index <= MAX_ITERS_CAP + 2
    &&& d.tries_used <= MAX_OFFSET_TRIES_CAP
}

/// Facts that hold of every detour decision the planner records.
pub open spec fn detour_ok(d: DetourDecision, opts: RouteOptions) -> bool {
    &&& 1 <= d.tries_used <= opts.max_offset_tries
    &&& d.tries_exhausted == (d.tries_used == opts.max_offset_tries)
    &&& detour_persistable(d)
}

/// Sum the segment lengths of a polyline.
pub fn polyline_length(wps: &Vec<Point>) -> (r: i64)
    requires
        forall|i: int| 0 <= i < wps@.len() ==> pt_in(#[trigger] wps@[i], P_BOUND as int),
        wps@.len() <= MAX_ITERS_CAP + 2,
    ensures
        r as int == s_polyline_len(wps@),
        0 <= r,
{
    let n = wps.len();
    if n <= 1 {
        return 0;
    }
    let mut acc: i64 = 0;
    for i in 0..n - 1
        invariant
            n == wps@.len(),
            2 <= n <= MAX_ITERS_CAP + 2,
            forall|j: int| 0 <= j < wps@.len() ==> pt_in(#[trigger] wps@[j], P_BOUND as int),
            acc as int == s_polyline_len(wps@.take(i as int + 1)),
            0 <= acc as int <= (i as int) * (SEG_MAX as int),
    {
        proof {
            lemma_seg_dist(wps@[i as int], wps@[i as int + 1]);
            assert(wps@.take(i + 2).drop_last() =~= wps@.take(i + 1));
            assert(wps@.take(i + 2)[i + 1] == wps@[i as int + 1]);
            assert(wps@.take(i + 2)[i as int] == wps@[i as int]);
            assert((i as int) * (SEG_MAX as int) + (SEG_MAX as int) == (i as int + 1) * (SEG_MAX
                as int)) by (nonlinear_arith);
            assert((i as int + 1) * (SEG_MAX as int) <= (MAX_ITERS_CAP as int + 1) * (SEG_MAX
                as int)) by (nonlinear_arith)
                requires
                    i as int + 1 <= MAX_ITERS_CAP as int + 1,
                    SEG_MAX == 8_500_000_000_000_000i64,
            ;
        }
        acc = acc + crate::geometry::dist(wps[i], wps[i + 1]);
    }
    proof {
        assert(wps@.take(n as int) =~= wps@);
    }
    acc
}

/// The display name of the first obstacle with the given id.
fn obstacle_name_for(obstacles: &Vec<Obstacle>, id: i64) -> (r: String)
    ensures
        r@ == s_name_of(obstacles@, id as int),
{
    let n = obstacles.len();
    proof {
        assert(obstacles@.skip(0) =~= obstacles@);
    }
    for i in 0..n
        invariant
            n == obstacles@.len(),
            s_name_of(obstacles@.skip(i as int), id as int) == s_name_of(obstacles@, id as int),
    {
        proof {
            assert(obstacles@.skip(i as int).drop_first() =~= obstacles@.skip(i + 1));
            assert(obstacles@.skip(i as int)[0] == obstacles@[i as int]);
        }
        if obstacles[i].id == id {
            return obstacles[i].name.clone();
        }
    }
    "<unknown>".to_owned()
}

/// Grow the offset by the configured factor, capped at `OFFSET_CAP`.
fn next_offset(offset: i64, growth: i64) -> (r: i64)
    requires
        0 < offset <= OFFSET_CAP,
        SCALE < growth,
    ensures
        r as int == s_next_offset(offset as int, growth as int),
        0 < r <= OFFSET_CAP,
{
    proof {
        assert((offset as int) * (growth as int) <= u128::MAX) by (nonlinear_arith)
            requires
                0 < offset as int <= OFFSET_CAP as int,
                0 < growth as int <= i64::MAX,
                OFFSET_CAP == 150_000_000_000i64,
        ;
    }
    let p = (offset as u128) * (growth as u128) / (SCALE as u128);
    proof {
        assert(p as int >= offset as int) by (nonlinear_arith)
            requires
                p as int == (offset as int) * (growth as int) / (SCALE as int),
                0 < offset as int,
                growth as int > SCALE as int,
                SCALE == 10_000,
        ;
    }
    if p >= OFFSET_CAP as u128 {
        OFFSET_CAP
    } else {
        p as i64
    }
}

proof fn lemma_first_bad_none(wps: Seq<Point>, obs: Seq<Obstacle>, k: nat)
    requires
        forall|j: int|
            k <= j < wps.len() - 1 ==> s_first_collision(wps[j], #[trigger] wps[j + 1], obs)
                is None,
    ensures
        s_first_bad_seg(wps, obs, k) is None,
    decreases wps.len() - k,
{
    if k + 1 >= wps.len() {
    } else {
        lemma_first_bad_none(wps, obs, (k + 1) as nat);
    }
}

proof fn lemma_first_bad_at(wps: Seq<Point>, obs: Seq<Obstacle>, k: nat, si: nat, h: HitG)
    requires
        k <= si,
        si + 1 < wps.len(),
        forall|j: int|
            k <= j < si ==> s_first_collision(wps[j], #[trigger] wps[j + 1], obs) is None,
        s_first_collision(wps[si as int], wps[si as int + 1], obs) == Some(h),
    ensures
        s_first_bad_seg(wps, obs, k) == Some((si, h)),
    decreases si - k,
{
    if k == si {
    } else {
        lemma_first_bad_at(wps, obs, (k + 1) as nat, si, h);
    }
}

/// Compute a route from `start` to `end` around `obstacles`.
///
/// The result equals the planner model applied to the same inputs, so two
/// computes on equal inputs return equal routes. On success the polyline
/// keeps its endpoints, every interior segment is collision-free, the
/// iteration count is bounded by `max_iters`, the recorded length is the
/// exact sum of segment distances, and every detour's try telemetry is
/// within its bounds.
#[verifier::rlimit(100)]
#[verifier::spinoff_prover]
pub fn compute_route(
    start: Point,
    end: Point,
    obstacles: &Vec<Obstacle>,
    opts: RouteOptions,
) -> (r: Result<Route, RouteError>)
    requires
        pt_in(start, MAX_UNIT as int),
        pt_in(end, MAX_UNIT as int),
        wf_obs(obstacles@),
        opts_in_bounds(opts),
    ensures
        (match r {
            Ok(route) => Ok::<RouteG, RouteError>(route.g()),
            Err(e) => Err::<RouteG, RouteError>(e),
        }) == s_compute_route(start, end, obstacles@, opts),
        r matches Ok(route) ==> {
            &&& route.waypoints@.len() >= 1
            &&& route.waypoints@[0] == start
            &&& route.waypoints@.last() == end
            &&& forall|i: int|
                0 <= i < route.waypoints@.len() - 1 ==> s_first_collision(
                    route.waypoints@[i],
                    #[trigger] route.waypoints@[i + 1],
                    obstacles@,
                ) is None
            &&& route.iterations <= opts.max_iters
            &&& route.waypoints@.len() <= MAX_ITERS_CAP + 2
            &&& route.detours@.len() == route.iterations
            &&& route.length as int == s_polyline_len(route.waypoints@)
            &&& forall|i: int|
                0 <= i < route.waypoints@.len() ==> pt_in(
                    #[trigger] route.waypoints@[i],
                    P_BOUND as int,
                )
            &&& forall|k: int|
                0 <= k < route.detours@.len() ==> detour_ok(#[trigger] route.detours@[k], opts)
        },
{
    if start.x == end.x && start.y == end.y {
        let single = Route {
            waypoints: vec![start],
            length: 0,
            iterations: 0,
            detours: Vec::new(),
        };
        proof {
            assert(single.waypoints@ =~= seq![start]);
            assert(single.detours@.map_values(|d: DetourDecision| d.g()) =~= Seq::<
                DetourG,
            >::empty());
        }
        return Ok(single);
    }
    if opts.max_offset_tries == 0 {
        return Err(RouteError::InvalidOptions);
    }
    if opts.offset_growth <= SCALE {
        return Err(RouteError::InvalidOptions);
    }

    let mut waypoints: Vec<Point> = Vec::new();
    waypoints.push(start);
    waypoints.push(end);
    let mut detours: Vec<DetourDecision> = Vec::new();
    let mut iterations: usize = 0;

    proof {
        assert(waypoints@ =~= seq![start, end]);
        assert(detours@.map_values(|d: DetourDecision| d.g()) =~= Seq::<DetourG>::empty());
    }

    while iterations < opts.max_iters
        invariant
            pt_in(start, MAX_UNIT as int),
            pt_in(end, MAX_UNIT as int),
            wf_obs(obstacles@),
            opts_in_bounds(opts),
            !(start == end),
            opts.max_offset_tries >= 1,
            opts.offset_growth > SCALE,
            iterations <= opts.max_iters,
            waypoints@.len() == 2 + iterations,
            waypoints@[0] == start,
            waypoints@.last() == end,
            forall|i: int|
                0 <= i < waypoints@.len() ==> pt_in(
                    #[trigger] waypoints@[i],
                    MAX_UNIT as int + (iterations as int) * (ITER_SLACK as int),
                ),
            detours@.len() == iterations,
            forall|k: int| 0 <= k < detours@.len() ==> detour_ok(#[trigger] detours@[k], opts),
            s_plan(
                waypoints@,
                detours@.map_values(|d: DetourDecision| d.g()),
                iterations as nat,
                obstacles@,
                opts,
            ) == s_plan(seq![start, end], Seq::<DetourG>::empty(), 0, obstacles@, opts),
        decreases opts.max_iters - iterations,
    {
        let ghost cur_bound: int = MAX_UNIT as int + (iterations as int) * (ITER_SLACK as int);
        proof {
            assert(cur_bound + ITER_SLACK as int <= P_BOUND as int) by (nonlinear_arith)
                requires
                    0 <= iterations as int <= MAX_ITERS_CAP as int - 1,
                    cur_bound == MAX_UNIT as int + (iterations as int) * (ITER_SLACK as int),
                    MAX_UNIT == 10_000_000_000i64,
                    ITER_SLACK == 200_000_000_000i64,
                    MAX_ITERS_CAP == 1_000usize,
                    P_BOUND == 3_000_000_000_000_000i64,
            ;
        }

        // 1) find the first colliding segment
        let mut seg_idx: usize = 0;
        let mut found: Option<Hit> = None;
        while found.is_none() && seg_idx < waypoints.len() - 1
            invariant
                wf_obs(obstacles@),
                forall|i: int|
                    0 <= i < waypoints@.len() ==> pt_in(#[trigger] waypoints@[i], cur_bound),
                0 <= cur_bound,
                cur_bound + ITER_SLACK as int <= P_BOUND as int,
                waypoints@.len() >= 2,
                seg_idx + 1 <= waypoints@.len(),
                match found {
                    None => forall|j: int|
                        0 <= j < seg_idx ==> s_first_collision(
                            waypoints@[j],
                            #[trigger] waypoints@[j + 1],
                            obstacles@,
                        ) is None,
                    Some(h) => {
                        &&& seg_idx + 1 < waypoints@.len()
                        &&& s_first_collision(
                            waypoints@[seg_idx as int],
                            waypoints@[seg_idx as int + 1],
                            obstacles@,
                        ) == Some(h.g())
                        &&& crate::collision::hit_wf(
                            h,
                            waypoints@[seg_idx as int],
                            waypoints@[seg_idx as int + 1],
                        )
                        &&& forall|j: int|
                            0 <= j < seg_idx ==> s_first_collision(
                                waypoints@[j],
                                #[trigger] waypoints@[j + 1],
                                obstacles@,
                            ) is None
                    },
                },
            decreases waypoints@.len() - seg_idx, (if found is None {
                1int
            } else {
                0int
            }),
        {
            let sa = waypoints[seg_idx];
            let sb = waypoints[seg_idx + 1];
            match first_collision_on_segment(sa, sb, obstacles) {
                Some(h) => {
                    found = Some(h);
                },
                None => {
                    seg_idx = seg_idx + 1;
                },
            }
        }

        if found.is_none() {
            // 2a) no collisions: emit the route
            proof {
                lemma_first_bad_none(waypoints@, obstacles@, 0);
            }
            let length = polyline_length(&waypoints);
            let route = Route { waypoints, length, iterations, detours };
            return Ok(route);
        }

        let hit = found.unwrap();
        let sa = waypoints[seg_idx];
        let sb = waypoints[seg_idx + 1];
        proof {
            lemma_first_bad_at(waypoints@, obstacles@, 0, seg_idx as nat, hit.g());
            crate::collision::lemma_q_between(
                sa.x as int,
                sb.x as int,
                hit.closest.t as int,
                cur_bound,
            );
            crate::collision::lemma_q_between(
                sa.y as int,
                sb.y as int,
                hit.closest.t as int,
                cur_bound,
            );
        }

        // 2b) expanding-offset search for the best detour candidate
        let base_offset = hit.obstacle_radius + opts.clearance;
        let mut offset = base_offset;
        let mut try_idx: usize = 0;
        let mut best: Option<(Point, CandidateScore, i64, usize, bool)> = None;

        while best.is_none() && try_idx < opts.max_offset_tries
            invariant
                wf_obs(obstacles@),
                opts_in_bounds(opts),
                opts.offset_growth > SCALE,
                opts.max_offset_tries >= 1,
                0 <= cur_bound,
                cur_bound + ITER_SLACK as int <= P_BOUND as int,
                pt_in(sa, cur_bound),
                pt_in(sb, cur_bound),
                pt_in(hit.closest.q, cur_bound),
                crate::collision::hit_wf(hit, sa, sb),
                0 < base_offset <= OFFSET_CAP,
                try_idx <= opts.max_offset_tries,
                match best {
                    None => {
                        &&& 0 < offset <= OFFSET_CAP
                        &&& s_offset_search(
                            sa,
                            sb,
                            hit.g(),
                            obstacles@,
                            opts,
                            try_idx as nat,
                            offset as int,
                        ) == s_offset_search(
                            sa,
                            sb,
                            hit.g(),
                            obstacles@,
                            opts,
                            0,
                            base_offset as int,
                        )
                    },
                    Some(t) => {
                        &&& s_offset_search(
                            sa,
                            sb,
                            hit.g(),
                            obstacles@,
                            opts,
                            0,
                            base_offset as int,
                        ) == Some((t.0, t.1.g(), t.2 as int, t.3 as nat))
                        &&& t.3 < opts.max_offset_tries
                        &&& t.4 == (t.3 + 1 == opts.max_offset_tries)
                        &&& score_wf(t.1)
                        &&& pt_in(t.0, cur_bound + ITER_SLACK as int)
                    },
                },
            decreases opts.max_offset_tries - try_idx, (if best is None {
                1int
            } else {
                0int
            }),
        {
            let candidates = detour_candidates(sa, sb, &hit, offset, Ghost(cur_bound));
            let nc = candidates.len();
            for ci in 0..nc
                invariant
                    wf_obs(obstacles@),
                    opts_in_bounds(opts),
                    0 <= cur_bound,
                    cur_bound + ITER_SLACK as int <= P_BOUND as int,
                    pt_in(sa, cur_bound),
                    pt_in(sb, cur_bound),
                    forall|j: int|
                        0 <= j < candidates@.len() ==> pt_in(
                            #[trigger] candidates@[j],
                            cur_bound + ITER_SLACK as int,
                        ),
                    nc == candidates@.len(),
                    0 < offset <= OFFSET_CAP,
                    try_idx < opts.max_offset_tries,
                    match best {
                        None => s_best_candidate(
                            sa,
                            sb,
                            candidates@.take(ci as int),
                            obstacles@,
                            opts,
                            Some(hit.obstacle_id),
                        ) is None,
                        Some(t) => {
                            &&& s_best_candidate(
                                sa,
                                sb,
                                candidates@.take(ci as int),
                                obstacles@,
                                opts,
                                Some(hit.obstacle_id),
                            ) == Some((t.0, t.1.g()))
                            &&& t.2 == offset
                            &&& t.3 == try_idx
                            &&& t.4 == (try_idx + 1 == opts.max_offset_tries)
                            &&& score_wf(t.1)
                            &&& pt_in(t.0, cur_bound + ITER_SLACK as int)
                        },
                    },
            {
                let w = candidates[ci];
                proof {
                    assert(candidates@.take(ci + 1).drop_last() =~= candidates@.take(ci as int));
                    assert(candidates@.take(ci + 1).last() == candidates@[ci as int]);
                }
                match evaluate_candidate(sa, w, sb, obstacles, opts, Some(hit.obstacle_id)) {
                    None => {},
                    Some(score) => {
                        let better = match &best {
                            None => true,
                            Some(t) => score.total() < t.1.total(),
                        };
                        if better {
                            let exhausted = try_idx + 1 == opts.max_offset_tries;
                            best = Some((w, score, offset, try_idx, exhausted));
                        }
                    },
                }
            }
            proof {
                assert(candidates@.take(nc as int) =~= candidates@);
            }
            if best.is_none() {
                offset = next_offset(offset, opts.offset_growth);
                try_idx = try_idx + 1;
            }
        }

        let (detour_wp, detour_score, offset_used, used_try, exhausted) = match best {
            Some(t) => t,
            None => {
                return Err(
                    RouteError::NoDetour { obstacle_id: hit.obstacle_id, segment_index: seg_idx },
                );
            },
        };

        let tries_used = used_try + 1;
        let obstacle_name = obstacle_name_for(obstacles, hit.obstacle_id);

        let decision = DetourDecision {
            iteration: iterations,
            segment_index: seg_idx,
            obstacle_id: hit.obstacle_id,
            obstacle_name,
            obstacle_center: hit.obstacle_center,
            obstacle_radius: hit.obstacle_radius,
            closest_t: hit.closest.t,
            closest_q: hit.closest.q,
            closest_dist: hit.closest.dist,
            offset_used,
            waypoint: detour_wp,
            score: detour_score,
            tries_used,
            tries_exhausted: exhausted,
        };

        let ghost wps0 = waypoints@;
        let ghost dets0 = detours@.map_values(|d: DetourDecision| d.g());

        detours.push(decision);
        waypoints.insert(seg_idx + 1, detour_wp);
        iterations = iterations + 1;

        proof {
            assert(detours@.map_values(|d: DetourDecision| d.g()) =~= dets0.push(decision.g()));
            assert(waypoints@ =~= wps0.insert(seg_idx as int + 1, detour_wp));
            assert(waypoints@[0] == start);
            assert(waypoints@.last() == end);
            assert forall|i: int|
                0 <= i < waypoints@.len() implies pt_in(
                #[trigger] waypoints@[i],
                MAX_UNIT as int + (iterations as int) * (ITER_SLACK as int),
            ) by {
                assert((iterations as int - 1) * (ITER_SLACK as int) + ITER_SLACK as int == (
                iterations as int) * (ITER_SLACK as int)) by (nonlinear_arith);
            }
        }
    }
    Err(RouteError::MaxItersExceeded)
}



/// Determinism of the planner: two computes on identical inputs return
/// identical outcomes, waypoints, length, iteration count and detour
/// records included.
pub proof fn lemma_compute_route_deterministic(
    r1: Result<Route, RouteError>,
    r2: Result<Route, RouteError>,
    start: Point,
    end: Point,
    obs: Seq<Obstacle>,
    opts: RouteOptions,
)
    requires
        (match r1 {
            Ok(route) => Ok::<RouteG, RouteError>(route.g()),
            Err(e) => Err::<RouteG, RouteError>(e),
        }) == s_compute_route(start, end, obs, opts),
        (match r2 {
            Ok(route) => Ok::<RouteG, RouteError>(route.g()),
            Err(e) => Err::<RouteG, RouteError>(e),
        }) == s_compute_route(start, end, obs, opts),
    ensures
        match (r1, r2) {
            (Ok(a), Ok(b)) => a.g() == b.g(),
            (Err(a), Err(b)) => a == b,
            _ => false,
        },
{
}


} // verus!
