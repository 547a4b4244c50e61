//! Data rows as the route layer reads and writes them. Coordinates and
//! lengths are fixed-point units of `1/SCALE` parsec.

use vstd::prelude::*;

use crate::hyperspace::{s_parse_region, GalacticRegion};

verus! {

use vstd::string::StringSliceAdditionalSpecFns;

/// A planet, read-only for the planner; only the fields the route layer
/// reads.
#[derive(Debug, Clone)]
pub struct Planet {
    pub fid: i64,
    pub planet: String,
    pub planet_norm: String,
    pub region: Option<String>,
    pub c_region: Option<String>,
    pub c_region_li: Option<String>,
    pub x: i64,
    pub y: i64,
}

/// A stored route header, joined with its endpoint planet names.
#[derive(Debug, Clone)]
pub struct RouteRow {
    pub id: i64,
    pub from_planet_fid: i64,
    pub to_planet_fid: i64,
    pub from_planet_name: String,
    pub to_planet_name: String,
    pub algo_version: String,
    pub options_json: String,
    pub length: Option<i64>,
    pub iterations: Option<i64>,
    pub status: String,
    pub error: Option<String>,
    pub created_at: String,
    pub updated_at: Option<String>,
}

impl RouteRow {
    /// An exact copy of the row.
    pub fn copy_row(&self) -> (r: RouteRow)
        ensures
            r == *self,
    {
        RouteRow {
            id: self.id,
            from_planet_fid: self.from_planet_fid,
            to_planet_fid: self.to_planet_fid,
            from_planet_name: self.from_planet_name.clone(),
            to_planet_name: self.to_planet_name.clone(),
            algo_version: self.algo_version.clone(),
            options_json: self.options_json.clone(),
            length: self.length,
            iterations: self.iterations,
            status: self.status.clone(),
            error: match &self.error {
                Some(e) => Some(e.clone()),
                None => None,
            },
            created_at: self.created_at.clone(),
            updated_at: match &self.updated_at {
                Some(u) => Some(u.clone()),
                None => None,
            },
        }
    }
}

/// One stored polyline point.
#[derive(Debug, Clone)]
pub struct RouteWaypointRow {
    pub seq: i64,
    pub x: i64,
    pub y: i64,
    pub waypoint_id: Option<i64>,
    pub waypoint_name: Option<String>,
    pub waypoint_kind: Option<String>,
}

/// One stored detour decision, with the obstacle name resolved.
#[derive(Debug, Clone)]
pub struct RouteDetourRow {
    pub idx: i64,
    pub iteration: i64,
    pub segment_index: i64,
    pub obstacle_id: i64,
    pub obstacle_name: String,
    pub obstacle_x: i64,
    pub obstacle_y: i64,
    pub obstacle_radius: i64,
    pub closest_t: i64,
    pub closest_qx: i64,
    pub closest_qy: i64,
    pub closest_dist: i64,
    pub offset_used: i64,
    pub wp_x: i64,
    pub wp_y: i64,
    pub waypoint_id: Option<i64>,
    pub score_base: i64,
    pub score_turn: i64,
    pub score_back: i64,
    pub score_proximity: i64,
    pub score_total: i64,
    pub tries_used: Option<i64>,
    pub tries_exhausted: i64,
}

/// A loaded route: header, ordered polyline, ordered detours.
#[derive(Debug, Clone)]
pub struct RouteLoaded {
    pub route: RouteRow,
    pub waypoints: Vec<RouteWaypointRow>,
    pub detours: Vec<RouteDetourRow>,
}

/// The region a planet's name fields denote: the first of its curated and
/// raw region fields that parses.
pub open spec fn s_planet_region(p: Planet) -> Option<GalacticRegion> {
    let c1 = match p.c_region {
        Some(s) => s_parse_region(vstd::utf8::encode_utf8(s@)),
        None => None,
    };
    let c2 = match p.c_region_li {
        Some(s) => s_parse_region(vstd::utf8::encode_utf8(s@)),
        None => None,
    };
    let c3 = match p.region {
        Some(s) => s_parse_region(vstd::utf8::encode_utf8(s@)),
        None => None,
    };
    if c1 is Some {
        c1
    } else if c2 is Some {
        c2
    } else {
        c3
    }
}

/// Parse the planet's region fields, curated fields first.
pub fn extract_galactic_region(p: &Planet) -> (r: Option<GalacticRegion>)
    ensures
        r == s_planet_region(*p),
{
    if let Some(s) = &p.c_region {
        if let Some(reg) = GalacticRegion::parse(s.as_str()) {
            return Some(reg);
        }
    }
    if let Some(s) = &p.c_region_li {
        if let Some(reg) = GalacticRegion::parse(s.as_str()) {
            return Some(reg);
        }
    }
    if let Some(s) = &p.region {
        if let Some(reg) = GalacticRegion::parse(s.as_str()) {
            return Some(reg);
        }
    }
    None
}

} // verus!
