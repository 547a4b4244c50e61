//! The explain projection: per-detour derived quantities and the
//! human-readable decision drivers, computed from the persisted numbers
//! alone.
//!
//! Scalars are fixed-point units; rendered numbers carry three decimals,
//! rounded half away from zero.

use vstd::prelude::*;

use crate::fingerprint::{lemma_dec_u_ascii, s_dec_u};
use crate::fixed::{s_abs, s_max, s_min, SCALE};
use crate::model::{RouteDetourRow, RouteLoaded};
use crate::normalize::{ascii_to_string, s_ascii_chars};
use crate::router::RouteOptions;

verus! {

/// Field bound under which the explain arithmetic cannot overflow.
pub const ROW_BOUND: i64 = 100_000_000_000_000_000;

/// Every numeric field of a stored detour row is within `ROW_BOUND`.
pub open spec fn detour_row_sane(d: RouteDetourRow) -> bool {
    &&& s_abs(d.obstacle_radius as int) <= ROW_BOUND
    &&& s_abs(d.closest_dist as int) <= ROW_BOUND
    &&& s_abs(d.offset_used as int) <= ROW_BOUND
    &&& s_abs(d.score_base as int) <= ROW_BOUND
    &&& s_abs(d.score_turn as int) <= ROW_BOUND
    &&& s_abs(d.score_back as int) <= ROW_BOUND
    &&& s_abs(d.score_proximity as int) <= ROW_BOUND
    &&& s_abs(d.score_total as int) <= ROW_BOUND
}

/// Three zero-padded decimal digits.
pub open spec fn s_pad3(r: int) -> Seq<u8> {
    seq![(48 + (r / 100) % 10) as u8, (48 + (r / 10) % 10) as u8, (48 + r % 10) as u8]
}

/// A fixed-point value rendered with three decimals, rounded half away
/// from zero; negatives keep their sign.
pub open spec fn s_fp3(v: int) -> Seq<u8> {
    let m = (s_abs(v) + 5) / 10;
    let digits = s_dec_u(m / 1000) + seq![46u8] + s_pad3(m % 1000);
    if v < 0 {
        seq![45u8] + digits
    } else {
        digits
    }
}

/// Render a fixed-point value with three decimals.
pub fn fp3_text(v: i64) -> (r: String)
    ensures
        r@ == s_ascii_chars(s_fp3(v as int)),
{
    let mut b: Vec<u8> = Vec::new();
    let neg = v < 0;
    let mag: u64 = if neg {
        b.push(45);
        (-(v as i128)) as u64
    } else {
        v as u64
    };
    let m = (mag + 5) / 10;
    crate::fingerprint::push_dec_u(&mut b, m / 1000);
    b.push(46);
    let rr = m % 1000;
    b.push(48 + (((rr / 100) % 10) as u8));
    b.push(48 + (((rr / 10) % 10) as u8));
    b.push(48 + ((rr % 10) as u8));
    proof {
        lemma_dec_u_ascii((m / 1000) as int);
        if neg {
            assert(b@ =~= seq![45u8] + (s_dec_u((m / 1000) as int) + seq![46u8] + s_pad3(
                (m % 1000) as int,
            )));
            assert(b@ =~= s_fp3(v as int));
        } else {
            assert(b@ =~= s_dec_u((m / 1000) as int) + seq![46u8] + s_pad3((m % 1000) as int));
            assert(b@ =~= s_fp3(v as int));
        }
    }
    ascii_to_string(b)
}

/// The clearance a segment had to keep from this obstacle.
pub open spec fn s_required(d: RouteDetourRow, clearance: int) -> int {
    d.obstacle_radius + clearance
}

/// By how much the straight segment pierced the safety disc.
pub open spec fn s_violated_by(d: RouteDetourRow, clearance: int) -> int {
    s_required(d, clearance) - d.closest_dist
}

/// The dominant penalty component: the largest of turn, back and
/// proximity, earlier components winning ties.
pub open spec fn s_dominant(d: RouteDetourRow) -> (int, int) {
    if d.score_turn >= d.score_back && d.score_turn >= d.score_proximity {
        (0, d.score_turn as int)
    } else if d.score_back >= d.score_proximity {
        (1, d.score_back as int)
    } else {
        (2, d.score_proximity as int)
    }
}

/// The dominant penalty of one stored detour: its component name and value.
pub fn dominant_penalty(d: &RouteDetourRow) -> (r: (String, i64))
    ensures
        r.1 as int == s_dominant(*d).1,
        (s_dominant(*d).0 == 0 ==> r.0@ == "turn"@),
        (s_dominant(*d).0 == 1 ==> r.0@ == "back"@),
        (s_dominant(*d).0 == 2 ==> r.0@ == "proximity"@),
{
    if d.score_turn >= d.score_back && d.score_turn >= d.score_proximity {
        (String::from_str("turn"), d.score_turn)
    } else if d.score_back >= d.score_proximity {
        (String::from_str("back"), d.score_back)
    } else {
        (String::from_str("proximity"), d.score_proximity)
    }
}

/// The largest offset the search could have used: the base offset grown
/// `tries - 1` times, computed with the planner's capped growth and at most
/// sixty-four growth steps.
pub open spec fn s_theo_max(required: int, growth: int, steps: int) -> int
    decreases steps,
{
    if steps <= 0 {
        required
    } else {
        crate::fixed::s_min(
            s_theo_max(required, growth, steps - 1) * growth / (SCALE as int),
            crate::fixed::OFFSET_CAP as int,
        )
    }
}

/// Compute the theoretical maximum offset of the search.
fn theo_max_offset(required: i64, growth: i64, tries: i64) -> (r: i64)
    requires
        0 <= required <= 2 * ROW_BOUND,
        0 <= growth,
    ensures
        r as int == s_theo_max(
            required as int,
            growth as int,
            s_min(s_max(tries as int - 1, 0), 64),
        ),
        0 <= r <= 2 * ROW_BOUND + crate::fixed::OFFSET_CAP as int,
{
    let steps: i64 = if tries <= 0 {
        0
    } else if tries > 65 {
        64
    } else {
        tries - 1
    };
    let mut cur = required;
    let mut i: i64 = 0;
    while i < steps
        invariant
            0 <= i <= steps,
            0 <= steps <= 64,
            0 <= growth,
            0 <= required <= 2 * ROW_BOUND,
            cur as int == s_theo_max(required as int, growth as int, i as int),
            0 <= cur <= 2 * ROW_BOUND + crate::fixed::OFFSET_CAP as int,
        decreases steps - i,
    {
        proof {
            assert((cur as int) * (growth as int) <= u128::MAX) by (nonlinear_arith)
                requires
                    0 <= cur as int <= i64::MAX,
                    0 <= growth as int <= i64::MAX,
            ;
        }
        let p = (cur as u128) * (growth as u128) / (SCALE as u128);
        let capped: i64 = if p >= crate::fixed::OFFSET_CAP as u128 {
            crate::fixed::OFFSET_CAP
        } else {
            p as i64
        };
        cur = capped;
        i = i + 1;
    }
    cur
}

/// One driver line: the recorded safety breach, or the margin when the
/// logged closest distance already met the requirement.
pub open spec fn s_constraint_line(d: RouteDetourRow, clearance: int) -> Seq<char> {
    let required = s_required(d, clearance);
    let breach = s_violated_by(d, clearance);
    if breach > 0 {
        "constraint: safety breach "@ + s_ascii_chars(s_fp3(breach)) + " (closest "@
            + s_ascii_chars(s_fp3(d.closest_dist as int)) + " < required "@ + s_ascii_chars(
            s_fp3(required),
        ) + ")"@
    } else {
        "constraint: no breach at logging time (margin "@ + s_ascii_chars(s_fp3(-breach)) + ")"@
    }
}

/// Whether the used offset sits near the theoretical maximum of the search.
pub open spec fn s_offset_near_max(d: RouteDetourRow, o: RouteOptions, clearance: int) -> bool {
    let theo = s_theo_max(
        s_max(s_required(d, clearance), 0),
        o.offset_growth as int,
        s_min(s_max(o.max_offset_tries as int - 1, 0), 64),
    );
    theo > 0 && 10 * d.offset_used >= 9 * theo
}

/// The limit driver line.
pub open spec fn s_limit_line(d: RouteDetourRow, o: RouteOptions, clearance: int) -> Seq<char> {
    let theo = s_theo_max(
        s_max(s_required(d, clearance), 0),
        o.offset_growth as int,
        s_min(s_max(o.max_offset_tries as int - 1, 0), 64),
    );
    "limit: offset near theoretical max (offset_used "@ + s_ascii_chars(
        s_fp3(d.offset_used as int),
    ) + " near max "@ + s_ascii_chars(s_fp3(theo)) + "); likely limited by max_offset_tries="@
        + s_ascii_chars(s_dec_u(o.max_offset_tries as int)) + " and offset_growth="@
        + s_ascii_chars(s_fp3(o.offset_growth as int))
}

/// The dominant-penalty driver line.
pub open spec fn s_dominant_line(d: RouteDetourRow) -> Seq<char> {
    let name = if s_dominant(d).0 == 0 {
        "turn_weight"@
    } else if s_dominant(d).0 == 1 {
        "back_weight"@
    } else {
        "proximity_weight"@
    };
    "cost: dominant penalty component is "@ + name + " ("@ + s_ascii_chars(s_fp3(s_dominant(d).1))
        + ")"@
}

/// The cost-shape driver line: penalties against base length.
pub open spec fn s_cost_line(d: RouteDetourRow) -> Seq<char> {
    let penalties = d.score_turn + d.score_back + d.score_proximity;
    if 4 * penalties > d.score_base {
        "cost: penalties are significant ("@ + s_ascii_chars(s_fp3(penalties)) + ") vs base ("@
            + s_ascii_chars(s_fp3(d.score_base as int)) + ")"@
    } else {
        "cost: route length dominates (base "@ + s_ascii_chars(s_fp3(d.score_base as int))
            + ", penalties "@ + s_ascii_chars(s_fp3(penalties)) + ")"@
    }
}

/// The decision drivers of one stored detour: the constraint line, the
/// offset-limit line when the search ran close to its cap, the dominant
/// penalty when one is non-zero, and the cost shape.
pub open spec fn s_drivers(d: RouteDetourRow, opts: Option<RouteOptions>) -> Seq<Seq<char>> {
    let clearance: int = match opts {
        Some(o) => o.clearance as int,
        None => 0,
    };
    let head = seq![s_constraint_line(d, clearance)];
    let with_limit = match opts {
        Some(o) => if s_offset_near_max(d, o, clearance) {
            head.push(s_limit_line(d, o, clearance))
        } else {
            head
        },
        None => head,
    };
    let with_dom = if s_dominant(d).1 > 0 {
        with_limit.push(s_dominant_line(d))
    } else {
        with_limit
    };
    with_dom.push(s_cost_line(d))
}

/// Derive the decision-driver lines of one stored detour from its persisted
/// numbers alone.
/// Render the constraint driver line.
#[verifier::spinoff_prover]
fn constraint_line(d: &RouteDetourRow, clearance: i64) -> (r: String)
    requires
        detour_row_sane(*d),
        0 <= clearance <= crate::fixed::MAX_UNIT,
    ensures
        r@ == s_constraint_line(*d, clearance as int),
{
    let required = d.obstacle_radius + clearance;
    let breach = required - d.closest_dist;
    let mut line = String::new();
    if breach > 0 {
        line.append("constraint: safety breach ");
        line.append(fp3_text(breach).as_str());
        line.append(" (closest ");
        line.append(fp3_text(d.closest_dist).as_str());
        line.append(" < required ");
        line.append(fp3_text(required).as_str());
        line.append(")");
    } else {
        line.append("constraint: no breach at logging time (margin ");
        line.append(fp3_text(-breach).as_str());
        line.append(")");
    }
    proof {
        assert(line@ =~= s_constraint_line(*d, clearance as int));
    }
    line
}

/// Render the offset-limit driver line.
#[verifier::spinoff_prover]
fn limit_line(d: &RouteDetourRow, o: &RouteOptions, clearance: i64, theo: i64) -> (r: String)
    requires
        detour_row_sane(*d),
        crate::router::opts_in_bounds(*o),
        theo as int == s_theo_max(
            s_max(s_required(*d, clearance as int), 0),
            o.offset_growth as int,
            s_min(s_max(o.max_offset_tries as int - 1, 0), 64),
        ),
    ensures
        r@ == s_limit_line(*d, *o, clearance as int),
{
    let mut line = String::new();
    line.append("limit: offset near theoretical max (offset_used ");
    line.append(fp3_text(d.offset_used).as_str());
    line.append(" near max ");
    line.append(fp3_text(theo).as_str());
    line.append("); likely limited by max_offset_tries=");
    line.append(crate::store::count_text(o.max_offset_tries).as_str());
    line.append(" and offset_growth=");
    line.append(fp3_text(o.offset_growth).as_str());
    proof {
        assert(line@ =~= s_limit_line(*d, *o, clearance as int));
    }
    line
}

/// Render the dominant-penalty driver line.
#[verifier::spinoff_prover]
fn dominant_line(d: &RouteDetourRow) -> (r: String)
    requires
        detour_row_sane(*d),
    ensures
        r@ == s_dominant_line(*d),
{
    let mut line = String::new();
    line.append("cost: dominant penalty component is ");
    if d.score_turn >= d.score_back && d.score_turn >= d.score_proximity {
        line.append("turn_weight");
    } else if d.score_back >= d.score_proximity {
        line.append("back_weight");
    } else {
        line.append("proximity_weight");
    }
    line.append(" (");
    let dom = dominant_penalty(d);
    line.append(fp3_text(dom.1).as_str());
    line.append(")");
    proof {
        assert(line@ =~= s_dominant_line(*d));
    }
    line
}

/// Render the cost-shape driver line.
#[verifier::spinoff_prover]
fn cost_line(d: &RouteDetourRow) -> (r: String)
    requires
        detour_row_sane(*d),
    ensures
        r@ == s_cost_line(*d),
{
    let penalties = d.score_turn + d.score_back + d.score_proximity;
    let mut line = String::new();
    if 4 * penalties > d.score_base {
        line.append("cost: penalties are significant (");
        line.append(fp3_text(penalties).as_str());
        line.append(") vs base (");
        line.append(fp3_text(d.score_base).as_str());
        line.append(")");
    } else {
        line.append("cost: route length dominates (base ");
        line.append(fp3_text(d.score_base).as_str());
        line.append(", penalties ");
        line.append(fp3_text(penalties).as_str());
        line.append(")");
    }
    proof {
        assert(line@ =~= s_cost_line(*d));
    }
    line
}

/// Derive the decision-driver lines of one stored detour from its persisted
/// numbers alone.
#[verifier::spinoff_prover]
pub fn analyze_detour_drivers(d: &RouteDetourRow, opts: Option<&RouteOptions>) -> (r: Vec<String>)
    requires
        detour_row_sane(*d),
        match opts {
            Some(o) => crate::router::opts_in_bounds(*o),
            None => true,
        },
    ensures
        r@.map_values(|s: String| s@) == s_drivers(
            *d,
            match opts {
                Some(o) => Some(*o),
                None => None::<RouteOptions>,
            },
        ),
{
    let ghost gopts: Option<RouteOptions> = match opts {
        Some(o) => Some(*o),
        None => None,
    };
    let clearance: i64 = match opts {
        Some(o) => o.clearance,
        None => 0,
    };
    let mut out: Vec<String> = Vec::new();
    out.push(constraint_line(d, clearance));

    match opts {
        Some(o) => {
            let required = d.obstacle_radius + clearance;
            let req_pos: i64 = if required > 0 {
                required
            } else {
                0
            };
            let tries: i64 = o.max_offset_tries as i64;
            let theo = theo_max_offset(req_pos, o.offset_growth, tries);
            if theo > 0 && 10 * d.offset_used >= 9 * theo {
                out.push(limit_line(d, o, clearance, theo));
            }
        },
        None => {},
    }

    let dom = dominant_penalty(d);
    if dom.1 > 0 {
        out.push(dominant_line(d));
    }
    out.push(cost_line(d));

    proof {
        assert(out@.map_values(|s: String| s@) =~= s_drivers(*d, gopts));
    }
    out
}

/// One detour of the explain projection.
#[derive(Debug, Clone)]
pub struct ExplainDetour {
    pub idx: i64,
    pub iteration: i64,
    pub segment_index: i64,
    pub obstacle_id: i64,
    pub obstacle_name: String,
    pub obstacle_x: i64,
    pub obstacle_y: i64,
    pub obstacle_radius: i64,
    pub closest_t: i64,
    pub closest_qx: i64,
    pub closest_qy: i64,
    pub closest_dist: i64,
    pub required: i64,
    pub violated_by: i64,
    pub offset_used: i64,
    pub wp_x: i64,
    pub wp_y: i64,
    pub computed_waypoint_id: Option<i64>,
    pub score_base: i64,
    pub score_turn: i64,
    pub score_back: i64,
    pub score_proximity: i64,
    pub score_total: i64,
    pub tries_used: Option<i64>,
    pub tries_exhausted: bool,
    pub dominant_component: String,
    pub dominant_value: i64,
    pub decision_drivers: Vec<String>,
}

/// The explain projection of one stored route.
#[derive(Debug, Clone)]
pub struct ExplainExport {
    pub route: crate::model::RouteRow,
    pub options: Option<RouteOptions>,
    pub detours: Vec<ExplainDetour>,
    pub note_text: String,
    pub note_units: String,
}

/// One explain row carries its stored row over field for field, with the
/// derived quantities, the dominant penalty and the driver lines exactly as
/// the models give them.
pub open spec fn explain_row_ok(ed: ExplainDetour, d: RouteDetourRow, opts: Option<
    RouteOptions,
>) -> bool {
    let clearance: int = match opts {
        Some(o) => o.clearance as int,
        None => 0,
    };
    &&& ed.idx == d.idx
    &&& ed.iteration == d.iteration
    &&& ed.segment_index == d.segment_index
    &&& ed.obstacle_id == d.obstacle_id
    &&& ed.obstacle_name == d.obstacle_name
    &&& ed.obstacle_x == d.obstacle_x
    &&& ed.obstacle_y == d.obstacle_y
    &&& ed.obstacle_radius == d.obstacle_radius
    &&& ed.closest_t == d.closest_t
    &&& ed.closest_qx == d.closest_qx
    &&& ed.closest_qy == d.closest_qy
    &&& ed.closest_dist == d.closest_dist
    &&& ed.required as int == s_required(d, clearance)
    &&& ed.violated_by as int == s_violated_by(d, clearance)
    &&& ed.offset_used == d.offset_used
    &&& ed.wp_x == d.wp_x
    &&& ed.wp_y == d.wp_y
    &&& ed.computed_waypoint_id == d.waypoint_id
    &&& ed.score_base == d.score_base
    &&& ed.score_turn == d.score_turn
    &&& ed.score_back == d.score_back
    &&& ed.score_proximity == d.score_proximity
    &&& ed.score_total == d.score_total
    &&& ed.tries_used == d.tries_used
    &&& ed.tries_exhausted == (d.tries_exhausted != 0)
    &&& (s_dominant(d).0 == 0 ==> ed.dominant_component@ == "turn"@)
    &&& (s_dominant(d).0 == 1 ==> ed.dominant_component@ == "back"@)
    &&& (s_dominant(d).0 == 2 ==> ed.dominant_component@ == "proximity"@)
    &&& ed.dominant_value as int == s_dominant(d).1
    &&& ed.decision_drivers@.map_values(|l: String| l@) == s_drivers(d, opts)
}

/// Build the explain projection of a loaded route. It succeeds exactly when
/// every stored detour row is within `ROW_BOUND`; then the header and every
/// stored field are carried over, `required` and `violated_by` are derived
/// from the stored numbers, and each detour gets its dominant penalty and
/// driver lines per the models.
pub fn build_explain_export(loaded: &RouteLoaded, opts: Option<&RouteOptions>) -> (r: Result<
    ExplainExport,
    (),
>)
    requires
        match opts {
            Some(o) => crate::router::opts_in_bounds(*o),
            None => true,
        },
    ensures
        r is Ok <==> (forall|k: int|
            0 <= k < loaded.detours@.len() ==> detour_row_sane(#[trigger] loaded.detours@[k])),
        r matches Ok(e) ==> {
            &&& e.route == loaded.route
            &&& e.options == match opts {
                Some(o) => Some(*o),
                None => None::<RouteOptions>,
            }
            &&& e.note_units@ == "parsec"@
            &&& e.note_text@
                == "The above detour explanation reflects the state at the time of route computation. Subsequent changes to route parameters or obstacle data will not be reflected here."@
            &&& e.detours@.len() == loaded.detours@.len()
            &&& forall|k: int|
                0 <= k < e.detours@.len() ==> explain_row_ok(
                    #[trigger] e.detours@[k],
                    loaded.detours@[k],
                    match opts {
                        Some(o) => Some(*o),
                        None => None::<RouteOptions>,
                    },
                )
        },
{
    let ghost gopts: Option<RouteOptions> = match opts {
        Some(o) => Some(*o),
        None => None,
    };
    let clearance: i64 = match opts {
        Some(o) => o.clearance,
        None => 0,
    };
    let mut detours: Vec<ExplainDetour> = Vec::new();
    let n = loaded.detours.len();
    for i in 0..n
        invariant
            n == loaded.detours@.len(),
            detours@.len() == i,
            match opts {
                Some(o) => crate::router::opts_in_bounds(*o) && clearance == o.clearance && gopts
                    == Some(*o),
                None => clearance == 0 && gopts == None::<RouteOptions>,
            },
            forall|k: int| 0 <= k < i ==> detour_row_sane(#[trigger] loaded.detours@[k]),
            forall|k: int|
                0 <= k < i ==> explain_row_ok(#[trigger] detours@[k], loaded.detours@[k], gopts),
    {
        let d = &loaded.detours[i];
        let sane = d.obstacle_radius >= -ROW_BOUND && d.obstacle_radius <= ROW_BOUND
            && d.closest_dist >= -ROW_BOUND && d.closest_dist <= ROW_BOUND && d.offset_used
            >= -ROW_BOUND && d.offset_used <= ROW_BOUND && d.score_base >= -ROW_BOUND
            && d.score_base <= ROW_BOUND && d.score_turn >= -ROW_BOUND && d.score_turn <= ROW_BOUND
            && d.score_back >= -ROW_BOUND && d.score_back <= ROW_BOUND && d.score_proximity
            >= -ROW_BOUND && d.score_proximity <= ROW_BOUND && d.score_total >= -ROW_BOUND
            && d.score_total <= ROW_BOUND;
        if !sane {
            proof {
                assert(!detour_row_sane(loaded.detours@[i as int]));
            }
            return Err(());
        }
        let required = d.obstacle_radius + clearance;
        let violated_by = required - d.closest_dist;
        let dom = dominant_penalty(d);
        let drivers = analyze_detour_drivers(d, opts);
        detours.push(
            ExplainDetour {
                idx: d.idx,
                iteration: d.iteration,
                segment_index: d.segment_index,
                obstacle_id: d.obstacle_id,
                obstacle_name: d.obstacle_name.clone(),
                obstacle_x: d.obstacle_x,
                obstacle_y: d.obstacle_y,
                obstacle_radius: d.obstacle_radius,
                closest_t: d.closest_t,
                closest_qx: d.closest_qx,
                closest_qy: d.closest_qy,
                closest_dist: d.closest_dist,
                required,
                violated_by,
                offset_used: d.offset_used,
                wp_x: d.wp_x,
                wp_y: d.wp_y,
                computed_waypoint_id: d.waypoint_id,
                score_base: d.score_base,
                score_turn: d.score_turn,
                score_back: d.score_back,
                score_proximity: d.score_proximity,
                score_total: d.score_total,
                tries_used: d.tries_used,
                tries_exhausted: d.tries_exhausted != 0,
                dominant_component: dom.0,
                dominant_value: dom.1,
                decision_drivers: drivers,
            },
        );
    }
    let options: Option<RouteOptions> = match opts {
        Some(o) => Some(*o),
        None => None,
    };
    Ok(
        ExplainExport {
            route: loaded.route.copy_row(),
            options,
            detours,
            note_text: String::from_str(
                "The above detour explanation reflects the state at the time of route computation. Subsequent changes to route parameters or obstacle data will not be reflected here.",
            ),
            note_units: String::from_str("parsec"),
        },
    )
}

} // verus!
