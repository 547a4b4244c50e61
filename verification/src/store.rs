//! Route persistence: the schema, the upsert of a computed route with its
//! polyline and detour decisions, the fingerprint-deduplicated catalog of
//! computed waypoints, loading for show and explain, pruning of orphan
//! computed waypoints, and the compute orchestration.
//!
//! Every SQL statement runs through one trusted wrapper; what surrounds the
//! statements — the canonical options text, fingerprints, the transaction
//! script, obstacle selection and row assembly — is verified.

use vstd::prelude::*;

use rusqlite::OptionalExtension;

use crate::collision::{wf_obs, Obstacle};
use crate::fingerprint::{
    detour_fp_bytes, lemma_dec_i_ascii, lemma_dec_u_ascii, s_dec_i, s_dec_u,
};
use crate::fixed::{MAX_OBSTACLES, MAX_UNIT};
use crate::geometry::Point;
use crate::model::{Planet, RouteDetourRow, RouteLoaded, RouteRow, RouteWaypointRow};
use crate::normalize::{ascii_to_string, normalize_text, s_ascii_chars};
use crate::router::{
    compute_route, detour_persistable, opts_in_bounds, DetourDecision, Route, RouteError,
    RouteOptions,
};

verus! {

#[verifier::external_type_specification]
#[verifier::external_body]
pub struct ExConnection(rusqlite::Connection);

#[verifier::external_type_specification]
#[verifier::external_body]
pub struct ExSqlError(rusqlite::Error);

/// An opaque storage failure carrying the database's message.
#[derive(Debug, Clone)]
pub struct StoreError {
    pub message: String,
}

/// Relies on rusqlite::Error's Display form for the stored message.
#[verifier::external_body]
fn db_err(e: rusqlite::Error) -> StoreError {
    StoreError { message: e.to_string() }
}

fn text_err(msg: &str) -> (r: StoreError)
    ensures
        r.message@ == msg@,
{
    StoreError { message: msg.to_owned() }
}

const SCHEMA_SQL: &'static str = "
PRAGMA foreign_keys=ON;
CREATE TABLE IF NOT EXISTS meta (key TEXT PRIMARY KEY, value TEXT);
CREATE TABLE IF NOT EXISTS planets (
  FID INTEGER PRIMARY KEY, Planet TEXT NOT NULL, planet_norm TEXT NOT NULL,
  Region TEXT, CRegion TEXT, CRegion_li TEXT,
  X REAL NOT NULL, Y REAL NOT NULL,
  deleted INTEGER NOT NULL DEFAULT 0 CHECK (deleted IN (0,1)),
  arcgis_hash TEXT NOT NULL DEFAULT '');
CREATE TABLE IF NOT EXISTS planet_aliases (
  alias TEXT NOT NULL, alias_norm TEXT NOT NULL, planet_fid INTEGER NOT NULL,
  source TEXT);
CREATE TABLE IF NOT EXISTS waypoints (
  id INTEGER PRIMARY KEY AUTOINCREMENT,
  name TEXT NOT NULL, name_norm TEXT NOT NULL,
  x INTEGER NOT NULL, y INTEGER NOT NULL,
  kind TEXT NOT NULL DEFAULT 'manual', note TEXT, fingerprint TEXT,
  created_at TEXT NOT NULL DEFAULT (datetime('now')), updated_at TEXT);
CREATE UNIQUE INDEX IF NOT EXISTS idx_waypoints_name_norm ON waypoints(name_norm);
CREATE UNIQUE INDEX IF NOT EXISTS idx_waypoints_fingerprint
  ON waypoints(fingerprint) WHERE fingerprint IS NOT NULL;
CREATE TABLE IF NOT EXISTS waypoint_planets (
  waypoint_id INTEGER NOT NULL, planet_fid INTEGER NOT NULL,
  role TEXT NOT NULL DEFAULT 'anchor', distance INTEGER,
  PRIMARY KEY (waypoint_id, planet_fid),
  FOREIGN KEY (waypoint_id) REFERENCES waypoints(id) ON DELETE CASCADE,
  FOREIGN KEY (planet_fid) REFERENCES planets(FID) ON DELETE CASCADE);
CREATE TABLE IF NOT EXISTS routes (
  id INTEGER PRIMARY KEY AUTOINCREMENT,
  from_planet_fid INTEGER NOT NULL, to_planet_fid INTEGER NOT NULL,
  algo_version TEXT NOT NULL, options_json TEXT NOT NULL,
  length INTEGER, iterations INTEGER,
  status TEXT NOT NULL DEFAULT 'ok' CHECK(status IN ('ok','failed')), error TEXT,
  created_at TEXT NOT NULL DEFAULT (strftime('%Y-%m-%dT%H:%M:%fZ','now')),
  updated_at TEXT);
CREATE UNIQUE INDEX IF NOT EXISTS ux_routes_from_to
  ON routes(from_planet_fid, to_planet_fid);
CREATE TABLE IF NOT EXISTS route_waypoints (
  route_id INTEGER NOT NULL, seq INTEGER NOT NULL,
  x INTEGER NOT NULL, y INTEGER NOT NULL, waypoint_id INTEGER,
  PRIMARY KEY(route_id, seq),
  FOREIGN KEY(route_id) REFERENCES routes(id) ON DELETE CASCADE,
  FOREIGN KEY(waypoint_id) REFERENCES waypoints(id) ON DELETE SET NULL);
CREATE TABLE IF NOT EXISTS route_detours (
  route_id INTEGER NOT NULL, idx INTEGER NOT NULL,
  iteration INTEGER NOT NULL, segment_index INTEGER NOT NULL,
  obstacle_id INTEGER NOT NULL,
  obstacle_x INTEGER NOT NULL, obstacle_y INTEGER NOT NULL,
  obstacle_radius INTEGER NOT NULL,
  closest_t INTEGER NOT NULL, closest_qx INTEGER NOT NULL,
  closest_qy INTEGER NOT NULL, closest_dist INTEGER NOT NULL,
  offset_used INTEGER NOT NULL, wp_x INTEGER NOT NULL, wp_y INTEGER NOT NULL,
  waypoint_id INTEGER,
  score_base INTEGER NOT NULL, score_turn INTEGER NOT NULL,
  score_back INTEGER NOT NULL, score_proximity INTEGER NOT NULL,
  score_total INTEGER NOT NULL,
  tries_used INTEGER, tries_exhausted INTEGER NOT NULL DEFAULT 0,
  PRIMARY KEY(route_id, idx),
  FOREIGN KEY(route_id) REFERENCES routes(id) ON DELETE CASCADE,
  FOREIGN KEY(waypoint_id) REFERENCES waypoints(id) ON DELETE SET NULL);
";

/// Relies on rusqlite::Connection::execute_batch: create the route-layer
/// tables and indexes when absent, and enforce foreign keys.
#[verifier::external_body]
pub fn ensure_schema(con: &rusqlite::Connection) -> (r: Result<(), StoreError>) {
    match con.execute_batch(SCHEMA_SQL) {
        Ok(_) => Ok(()),
        Err(e) => Err(db_err(e)),
    }
}

/// Relies on rusqlite::Connection::query_row counting matches in
/// sqlite_master.
#[verifier::external_body]
pub fn has_table(con: &rusqlite::Connection, table: &str) -> (r: Result<bool, StoreError>) {
    let q = con.query_row(
        "SELECT COUNT(*) FROM sqlite_master WHERE type = 'table' AND name = ?1",
        [table],
        |row| row.get::<_, i64>(0),
    );
    match q {
        Ok(n) => Ok(n > 0),
        Err(e) => Err(db_err(e)),
    }
}

/// Relies on rusqlite::Connection::execute: begin an immediate transaction.
#[verifier::external_body]
fn w_begin(con: &rusqlite::Connection) -> (r: Result<(), StoreError>) {
    match con.execute("BEGIN IMMEDIATE", []) {
        Ok(_) => Ok(()),
        Err(e) => Err(db_err(e)),
    }
}

/// Relies on rusqlite::Connection::execute: commit the open transaction.
#[verifier::external_body]
fn w_commit(con: &rusqlite::Connection) -> (r: Result<(), StoreError>) {
    match con.execute("COMMIT", []) {
        Ok(_) => Ok(()),
        Err(e) => Err(db_err(e)),
    }
}

/// Relies on rusqlite::Connection::execute: roll the open transaction back.
#[verifier::external_body]
fn w_rollback(con: &rusqlite::Connection) -> (r: Result<(), StoreError>) {
    match con.execute("ROLLBACK", []) {
        Ok(_) => Ok(()),
        Err(e) => Err(db_err(e)),
    }
}

/// Relies on rusqlite::Connection::execute with an upsert: insert the route
/// header or, on the unique `(from, to)` pair, refresh it in place keeping
/// `created_at` and renewing `updated_at`.
#[verifier::external_body]
fn w_upsert_route(
    con: &rusqlite::Connection,
    from_fid: i64,
    to_fid: i64,
    algo: &str,
    options_json: &str,
    length: i64,
    iterations: i64,
) -> (r: Result<(), StoreError>) {
    let q = con.execute(
        "INSERT INTO routes(from_planet_fid, to_planet_fid, algo_version, options_json, length, iterations, status, error, created_at, updated_at) VALUES (?1, ?2, ?3, ?4, ?5, ?6, 'ok', NULL, strftime('%Y-%m-%dT%H:%M:%fZ','now'), strftime('%Y-%m-%dT%H:%M:%fZ','now')) ON CONFLICT(from_planet_fid, to_planet_fid) DO UPDATE SET algo_version = excluded.algo_version, options_json = excluded.options_json, length = excluded.length, iterations = excluded.iterations, status = 'ok', error = NULL, updated_at = excluded.updated_at",
        (from_fid, to_fid, algo, options_json, length, iterations),
    );
    match q {
        Ok(_) => Ok(()),
        Err(e) => Err(db_err(e)),
    }
}

/// Relies on rusqlite::Connection::query_row: the id of the route stored
/// under the unique `(from, to)` pair.
#[verifier::external_body]
fn w_route_id(con: &rusqlite::Connection, from_fid: i64, to_fid: i64) -> (r: Result<
    Option<i64>,
    StoreError,
>) {
    let q = con.query_row(
        "SELECT id FROM routes WHERE from_planet_fid = ?1 AND to_planet_fid = ?2",
        (from_fid, to_fid),
        |row| row.get(0),
    ).optional();
    match q {
        Ok(v) => Ok(v),
        Err(e) => Err(db_err(e)),
    }
}

/// Relies on rusqlite::Connection::execute: delete a route's polyline rows.
#[verifier::external_body]
fn w_delete_route_waypoints(con: &rusqlite::Connection, route_id: i64) -> (r: Result<
    usize,
    StoreError,
>) {
    match con.execute("DELETE FROM route_waypoints WHERE route_id = ?1", [route_id]) {
        Ok(n) => Ok(n),
        Err(e) => Err(db_err(e)),
    }
}

/// Relies on rusqlite::Connection::execute: delete a route's detour rows.
#[verifier::external_body]
fn w_delete_route_detours(con: &rusqlite::Connection, route_id: i64) -> (r: Result<
    usize,
    StoreError,
>) {
    match con.execute("DELETE FROM route_detours WHERE route_id = ?1", [route_id]) {
        Ok(n) => Ok(n),
        Err(e) => Err(db_err(e)),
    }
}

/// Relies on rusqlite::Connection::query_row: the id of the waypoint with
/// the given fingerprint.
#[verifier::external_body]
pub fn find_waypoint_id_by_fingerprint(con: &rusqlite::Connection, fp: &str) -> (r: Result<
    Option<i64>,
    StoreError,
>) {
    let q = con.query_row("SELECT id FROM waypoints WHERE fingerprint = ?1", [fp], |row| row.get(0))
        .optional();
    match q {
        Ok(v) => Ok(v),
        Err(e) => Err(db_err(e)),
    }
}

/// Relies on rusqlite::Connection::execute and last_insert_rowid: insert one
/// waypoint row and return its id.
#[verifier::external_body]
fn w_insert_waypoint(
    con: &rusqlite::Connection,
    name: &str,
    name_norm: &str,
    x: i64,
    y: i64,
    kind: &str,
    note: Option<&str>,
    fingerprint: Option<&str>,
) -> (r: Result<i64, StoreError>) {
    let q = con.execute(
        "INSERT INTO waypoints (name, name_norm, x, y, kind, note, fingerprint) VALUES (?1, ?2, ?3, ?4, ?5, ?6, ?7)",
        (name, name_norm, x, y, kind, note, fingerprint),
    );
    match q {
        Ok(_) => Ok(con.last_insert_rowid()),
        Err(e) => Err(db_err(e)),
    }
}

/// Relies on rusqlite::Connection::execute with an upsert: link a waypoint
/// to a planet under a role, replacing the role and distance on conflict.
#[verifier::external_body]
pub fn link_waypoint_to_planet(
    con: &rusqlite::Connection,
    waypoint_id: i64,
    planet_fid: i64,
    role: &str,
    distance: Option<i64>,
) -> (r: Result<(), StoreError>) {
    let q = con.execute(
        "INSERT INTO waypoint_planets(waypoint_id, planet_fid, role, distance) VALUES (?1, ?2, ?3, ?4) ON CONFLICT(waypoint_id, planet_fid) DO UPDATE SET role=excluded.role, distance=excluded.distance",
        (waypoint_id, planet_fid, role, distance),
    );
    match q {
        Ok(_) => Ok(()),
        Err(e) => Err(db_err(e)),
    }
}

/// Relies on rusqlite::Connection::execute: insert one polyline row.
#[verifier::external_body]
fn w_insert_route_waypoint(
    con: &rusqlite::Connection,
    route_id: i64,
    seq: i64,
    x: i64,
    y: i64,
    waypoint_id: Option<i64>,
) -> (r: Result<(), StoreError>) {
    let q = con.execute(
        "INSERT INTO route_waypoints(route_id, seq, x, y, waypoint_id) VALUES (?1, ?2, ?3, ?4, ?5)",
        (route_id, seq, x, y, waypoint_id),
    );
    match q {
        Ok(_) => Ok(()),
        Err(e) => Err(db_err(e)),
    }
}

/// Relies on rusqlite::Connection::execute: insert one detour row with the
/// given total.
#[verifier::external_body]
fn w_insert_route_detour(
    con: &rusqlite::Connection,
    route_id: i64,
    idx: i64,
    d: &DetourDecision,
    waypoint_id: Option<i64>,
    total: i64,
) -> (r: Result<(), StoreError>)
    requires
        d.iteration <= i64::MAX,
        d.segment_index <= i64::MAX,
        d.tries_used <= i64::MAX,
{
    let q = con.execute(
        "INSERT INTO route_detours(route_id, idx, iteration, segment_index, obstacle_id, obstacle_x, obstacle_y, obstacle_radius, closest_t, closest_qx, closest_qy, closest_dist, offset_used, wp_x, wp_y, waypoint_id, score_base, score_turn, score_back, score_proximity, score_total, tries_used, tries_exhausted) VALUES (?1, ?2, ?3, ?4, ?5, ?6, ?7, ?8, ?9, ?10, ?11, ?12, ?13, ?14, ?15, ?16, ?17, ?18, ?19, ?20, ?21, ?22, ?23)",
        [&route_id as &dyn rusqlite::ToSql, &idx, &(d.iteration as i64),
            &(d.segment_index as i64), &d.obstacle_id, &d.obstacle_center.x,
            &d.obstacle_center.y, &d.obstacle_radius, &d.closest_t, &d.closest_q.x,
            &d.closest_q.y, &d.closest_dist, &d.offset_used, &d.waypoint.x,
            &d.waypoint.y, &waypoint_id, &d.score.base, &d.score.turn, &d.score.back,
            &d.score.proximity, &total, &(d.tries_used as i64),
            &(d.tries_exhausted as i64)].as_slice(),
    );
    match q {
        Ok(_) => Ok(()),
        Err(e) => Err(db_err(e)),
    }
}

/// Relies on rusqlite::Connection::query_row: route header identity fields,
/// joined with the endpoint planet names.
#[verifier::external_body]
fn w_route_header_ids(con: &rusqlite::Connection, route_id: i64) -> (r: Result<
    Option<(i64, i64, i64, String, String, String, String)>,
    StoreError,
>) {
    let q = con.query_row(
        "SELECT r.id, r.from_planet_fid, r.to_planet_fid, pf.Planet, pt.Planet, r.algo_version, r.options_json FROM routes r JOIN planets pf ON pf.FID = r.from_planet_fid JOIN planets pt ON pt.FID = r.to_planet_fid WHERE r.id = ?1",
        [route_id],
        |w| Ok((w.get(0)?, w.get(1)?, w.get(2)?, w.get(3)?, w.get(4)?, w.get(5)?, w.get(6)?)),
    ).optional();
    match q {
        Ok(v) => Ok(v),
        Err(e) => Err(db_err(e)),
    }
}

/// Relies on rusqlite::Connection::query_row: route header status fields.
#[verifier::external_body]
fn w_route_header_stats(con: &rusqlite::Connection, route_id: i64) -> (r: Result<
    Option<(Option<i64>, Option<i64>, String, Option<String>, String, Option<String>)>,
    StoreError,
>) {
    let q = con.query_row(
        "SELECT length, iterations, status, error, created_at, updated_at FROM routes WHERE id = ?1",
        [route_id],
        |w| Ok((w.get(0)?, w.get(1)?, w.get(2)?, w.get(3)?, w.get(4)?, w.get(5)?)),
    ).optional();
    match q {
        Ok(v) => Ok(v),
        Err(e) => Err(db_err(e)),
    }
}

/// Relies on rusqlite prepared statements: the polyline of a route with any
/// linked waypoint's name and kind, ascending in `seq` per the query's
/// ORDER BY.
#[verifier::external_body]
fn w_route_waypoints(con: &rusqlite::Connection, route_id: i64) -> (r: Result<
    Vec<(i64, i64, i64, Option<i64>, Option<String>, Option<String>)>,
    StoreError,
>)
    ensures
        r matches Ok(v) ==> forall|i: int, j: int|
            0 <= i < j < v@.len() ==> (#[trigger] v@[i]).0 <= (#[trigger] v@[j]).0,
{
    let go = || -> rusqlite::Result<Vec<(i64, i64, i64, Option<i64>, Option<String>, Option<String>)>> {
        let mut stmt = con.prepare(
            "SELECT rw.seq, rw.x, rw.y, rw.waypoint_id, w.name, w.kind FROM route_waypoints rw LEFT JOIN waypoints w ON w.id = rw.waypoint_id WHERE rw.route_id = ?1 ORDER BY rw.seq ASC",
        )?;
        let rows = stmt.query_map([route_id], |w| {
            Ok((w.get(0)?, w.get(1)?, w.get(2)?, w.get(3)?, w.get(4)?, w.get(5)?))
        })?;
        rows.collect()
    };
    go().map_err(db_err)
}

/// Relies on rusqlite prepared statements: detour geometry columns with the
/// obstacle name resolved (empty when the planet is gone), ascending in
/// `idx` per the query's ORDER BY.
#[verifier::external_body]
fn w_route_detours_geo(con: &rusqlite::Connection, route_id: i64) -> (r: Result<
    Vec<(i64, i64, i64, i64, String, i64, i64, i64)>,
    StoreError,
>)
    ensures
        r matches Ok(v) ==> forall|i: int, j: int|
            0 <= i < j < v@.len() ==> (#[trigger] v@[i]).0 <= (#[trigger] v@[j]).0,
{
    let go = || -> rusqlite::Result<Vec<(i64, i64, i64, i64, String, i64, i64, i64)>> {
        let mut stmt = con.prepare(
            "SELECT d.idx, d.iteration, d.segment_index, d.obstacle_id, COALESCE(p.Planet, ''), d.obstacle_x, d.obstacle_y, d.obstacle_radius FROM route_detours d LEFT JOIN planets p ON p.FID = d.obstacle_id WHERE d.route_id = ?1 ORDER BY d.idx ASC",
        )?;
        let rows = stmt.query_map([route_id], |w| {
            Ok((w.get(0)?, w.get(1)?, w.get(2)?, w.get(3)?, w.get(4)?, w.get(5)?, w.get(6)?, w.get(7)?))
        })?;
        rows.collect()
    };
    go().map_err(db_err)
}

/// Relies on rusqlite prepared statements: detour closest-point and chosen
/// waypoint columns, ascending in `idx` per the query's ORDER BY.
#[verifier::external_body]
fn w_route_detours_close(con: &rusqlite::Connection, route_id: i64) -> (r: Result<
    Vec<(i64, i64, i64, i64, i64, i64, i64, i64, Option<i64>)>,
    StoreError,
>)
    ensures
        r matches Ok(v) ==> forall|i: int, j: int|
            0 <= i < j < v@.len() ==> (#[trigger] v@[i]).0 <= (#[trigger] v@[j]).0,
{
    let go = || -> rusqlite::Result<Vec<(i64, i64, i64, i64, i64, i64, i64, i64, Option<i64>)>> {
        let mut stmt = con.prepare(
            "SELECT idx, closest_t, closest_qx, closest_qy, closest_dist, offset_used, wp_x, wp_y, waypoint_id FROM route_detours WHERE route_id = ?1 ORDER BY idx ASC",
        )?;
        let rows = stmt.query_map([route_id], |w| {
            Ok((w.get(0)?, w.get(1)?, w.get(2)?, w.get(3)?, w.get(4)?, w.get(5)?, w.get(6)?, w.get(7)?, w.get(8)?))
        })?;
        rows.collect()
    };
    go().map_err(db_err)
}

/// Relies on rusqlite prepared statements: detour score and telemetry
/// columns, ascending in `idx` per the query's ORDER BY.
#[verifier::external_body]
fn w_route_detours_score(con: &rusqlite::Connection, route_id: i64) -> (r: Result<
    Vec<(i64, i64, i64, i64, i64, i64, Option<i64>, i64)>,
    StoreError,
>)
    ensures
        r matches Ok(v) ==> forall|i: int, j: int|
            0 <= i < j < v@.len() ==> (#[trigger] v@[i]).0 <= (#[trigger] v@[j]).0,
{
    let go = || -> rusqlite::Result<Vec<(i64, i64, i64, i64, i64, i64, Option<i64>, i64)>> {
        let mut stmt = con.prepare(
            "SELECT idx, score_base, score_turn, score_back, score_proximity, score_total, tries_used, tries_exhausted FROM route_detours WHERE route_id = ?1 ORDER BY idx ASC",
        )?;
        let rows = stmt.query_map([route_id], |w| {
            Ok((w.get(0)?, w.get(1)?, w.get(2)?, w.get(3)?, w.get(4)?, w.get(5)?, w.get(6)?, w.get(7)?))
        })?;
        rows.collect()
    };
    go().map_err(db_err)
}

/// Relies on rusqlite::Connection::query_row: one planet by its normalized
/// name; coordinates are converted to units in SQL.
#[verifier::external_body]
pub fn find_planet_by_norm(con: &rusqlite::Connection, planet_norm: &str) -> (r: Result<
    Option<Planet>,
    StoreError,
>) {
    let q = con.query_row(
        "SELECT FID, Planet, planet_norm, Region, CRegion, CRegion_li, CAST(ROUND(X*10000) AS INTEGER), CAST(ROUND(Y*10000) AS INTEGER) FROM planets WHERE planet_norm = ?1 LIMIT 1",
        [planet_norm],
        |w| Ok(Planet { fid: w.get(0)?, planet: w.get(1)?, planet_norm: w.get(2)?, region: w.get(3)?, c_region: w.get(4)?, c_region_li: w.get(5)?, x: w.get(6)?, y: w.get(7)? }),
    ).optional();
    match q {
        Ok(v) => Ok(v),
        Err(e) => Err(db_err(e)),
    }
}

/// Relies on rusqlite::Connection::query_row: one planet through an alias's
/// normalized name, preferring the alphabetically first planet name.
#[verifier::external_body]
pub fn find_planet_by_alias_norm(con: &rusqlite::Connection, alias_norm: &str) -> (r: Result<
    Option<Planet>,
    StoreError,
>) {
    let q = con.query_row(
        "SELECT p.FID, p.Planet, p.planet_norm, p.Region, p.CRegion, p.CRegion_li, CAST(ROUND(p.X*10000) AS INTEGER), CAST(ROUND(p.Y*10000) AS INTEGER) FROM planet_aliases a JOIN planets p ON p.FID = a.planet_fid WHERE a.alias_norm = ?1 ORDER BY p.Planet COLLATE NOCASE LIMIT 1",
        [alias_norm],
        |w| Ok(Planet { fid: w.get(0)?, planet: w.get(1)?, planet_norm: w.get(2)?, region: w.get(3)?, c_region: w.get(4)?, c_region_li: w.get(5)?, x: w.get(6)?, y: w.get(7)? }),
    ).optional();
    match q {
        Ok(v) => Ok(v),
        Err(e) => Err(db_err(e)),
    }
}

/// Resolve a planet by normalized name, falling back to aliases.
pub fn find_planet_for_info(con: &rusqlite::Connection, key_norm: &str) -> Result<
    Option<Planet>,
    StoreError,
> {
    match find_planet_by_norm(con, key_norm)? {
        Some(p) => Ok(Some(p)),
        None => find_planet_by_alias_norm(con, key_norm),
    }
}

/// Relies on rusqlite prepared statements: live planets inside a bounding
/// box in units, ordered by name, capped at `limit`. The LIMIT clause caps
/// the row count for non-negative limits, and the BETWEEN selection with
/// SQLite's monotone integer-fixing ROUND keeps every returned unit
/// coordinate inside the queried box.
#[verifier::external_body]
pub fn list_planets_in_bbox(
    con: &rusqlite::Connection,
    min_x: i64,
    max_x: i64,
    min_y: i64,
    max_y: i64,
    limit: i64,
) -> (r: Result<Vec<(i64, String, i64, i64)>, StoreError>)
    ensures
        r matches Ok(v) ==> {
            &&& limit >= 0 ==> v@.len() <= limit
            &&& forall|k: int|
                0 <= k < v@.len() ==> min_x <= (#[trigger] v@[k]).2 <= max_x && min_y <= v@[k].3
                    <= max_y
        },
{
    let go = || -> rusqlite::Result<Vec<(i64, String, i64, i64)>> {
        let mut stmt = con.prepare(
            "SELECT FID, Planet, CAST(ROUND(X*10000) AS INTEGER), CAST(ROUND(Y*10000) AS INTEGER) FROM planets WHERE deleted = 0 AND X*10000 BETWEEN ?1 AND ?2 AND Y*10000 BETWEEN ?3 AND ?4 ORDER BY Planet COLLATE NOCASE LIMIT ?5",
        )?;
        let rows = stmt.query_map((min_x, max_x, min_y, max_y, limit), |w| {
            Ok((w.get(0)?, w.get(1)?, w.get(2)?, w.get(3)?))
        })?;
        rows.collect()
    };
    go().map_err(db_err)
}

/// Relies on rusqlite prepared statements: planets annotated as routing
/// obstacles (an `obstacle` role link) inside the bounding box, with their
/// configured radius in units when present. As for the catalog query, the
/// LIMIT clause caps the count and the BETWEEN selection bounds every
/// returned unit coordinate.
#[verifier::external_body]
pub fn list_routing_obstacles_in_bbox(
    con: &rusqlite::Connection,
    min_x: i64,
    max_x: i64,
    min_y: i64,
    max_y: i64,
    limit: i64,
    default_radius: i64,
) -> (r: Result<Vec<(i64, String, i64, i64, i64)>, StoreError>)
    ensures
        r matches Ok(v) ==> {
            &&& limit >= 0 ==> v@.len() <= limit
            &&& forall|k: int|
                0 <= k < v@.len() ==> min_x <= (#[trigger] v@[k]).2 <= max_x && min_y <= v@[k].3
                    <= max_y
        },
{
    let go = || -> rusqlite::Result<Vec<(i64, String, i64, i64, i64)>> {
        let mut stmt = con.prepare(
            "SELECT DISTINCT p.FID, p.Planet, CAST(ROUND(p.X*10000) AS INTEGER), CAST(ROUND(p.Y*10000) AS INTEGER), COALESCE(wp.distance, ?6) FROM planets p JOIN waypoint_planets wp ON wp.planet_fid = p.FID AND wp.role = 'obstacle' WHERE p.deleted = 0 AND p.X*10000 BETWEEN ?1 AND ?2 AND p.Y*10000 BETWEEN ?3 AND ?4 ORDER BY p.Planet COLLATE NOCASE LIMIT ?5",
        )?;
        let rows = stmt.query_map(
            (min_x, max_x, min_y, max_y, limit, default_radius),
            |w| Ok((w.get(0)?, w.get(1)?, w.get(2)?, w.get(3)?, w.get(4)?)),
        )?;
        rows.collect()
    };
    go().map_err(db_err)
}

/// Relies on rusqlite prepared statements: orphan computed waypoints that
/// have no planet link either.
#[verifier::external_body]
fn w_prune_candidates_safe(con: &rusqlite::Connection) -> (r: Result<
    Vec<(i64, String, String, i64)>,
    StoreError,
>) {
    let go = || -> rusqlite::Result<Vec<(i64, String, String, i64)>> {
        let mut stmt = con.prepare(
            "SELECT w.id, w.name, COALESCE(w.updated_at, w.created_at), (SELECT COUNT(*) FROM waypoint_planets wp WHERE wp.waypoint_id = w.id) FROM waypoints w WHERE w.kind = 'computed' AND NOT EXISTS (SELECT 1 FROM route_waypoints rw WHERE rw.waypoint_id = w.id) AND NOT EXISTS (SELECT 1 FROM waypoint_planets wp WHERE wp.waypoint_id = w.id) ORDER BY 3 DESC, w.id DESC",
        )?;
        let rows = stmt.query_map([], |w| Ok((w.get(0)?, w.get(1)?, w.get(2)?, w.get(3)?)))?;
        rows.collect()
    };
    go().map_err(db_err)
}

/// Relies on rusqlite prepared statements: orphan computed waypoints,
/// whether or not they still carry planet links.
#[verifier::external_body]
fn w_prune_candidates_linked(con: &rusqlite::Connection) -> (r: Result<
    Vec<(i64, String, String, i64)>,
    StoreError,
>) {
    let go = || -> rusqlite::Result<Vec<(i64, String, String, i64)>> {
        let mut stmt = con.prepare(
            "SELECT w.id, w.name, COALESCE(w.updated_at, w.created_at), (SELECT COUNT(*) FROM waypoint_planets wp WHERE wp.waypoint_id = w.id) FROM waypoints w WHERE w.kind = 'computed' AND NOT EXISTS (SELECT 1 FROM route_waypoints rw WHERE rw.waypoint_id = w.id) ORDER BY 3 DESC, w.id DESC",
        )?;
        let rows = stmt.query_map([], |w| Ok((w.get(0)?, w.get(1)?, w.get(2)?, w.get(3)?)))?;
        rows.collect()
    };
    go().map_err(db_err)
}

/// Relies on rusqlite::Connection::execute: drop planet links of orphan
/// computed waypoints.
#[verifier::external_body]
fn w_prune_unlink(con: &rusqlite::Connection) -> (r: Result<usize, StoreError>) {
    let q = con.execute(
        "DELETE FROM waypoint_planets WHERE waypoint_id IN (SELECT w.id FROM waypoints w WHERE w.kind = 'computed' AND NOT EXISTS (SELECT 1 FROM route_waypoints rw WHERE rw.waypoint_id = w.id))",
        [],
    );
    match q {
        Ok(n) => Ok(n),
        Err(e) => Err(db_err(e)),
    }
}

/// Relies on rusqlite::Connection::execute: delete orphan computed
/// waypoints that also have no planet link.
#[verifier::external_body]
fn w_prune_delete_safe(con: &rusqlite::Connection) -> (r: Result<usize, StoreError>) {
    let q = con.execute(
        "DELETE FROM waypoints WHERE kind = 'computed' AND NOT EXISTS (SELECT 1 FROM route_waypoints rw WHERE rw.waypoint_id = waypoints.id) AND NOT EXISTS (SELECT 1 FROM waypoint_planets wp WHERE wp.waypoint_id = waypoints.id)",
        [],
    );
    match q {
        Ok(n) => Ok(n),
        Err(e) => Err(db_err(e)),
    }
}

/// Relies on rusqlite::Connection::execute: delete all orphan computed
/// waypoints.
#[verifier::external_body]
fn w_prune_delete_linked(con: &rusqlite::Connection) -> (r: Result<usize, StoreError>) {
    let q = con.execute(
        "DELETE FROM waypoints WHERE kind = 'computed' AND NOT EXISTS (SELECT 1 FROM route_waypoints rw WHERE rw.waypoint_id = waypoints.id)",
        [],
    );
    match q {
        Ok(n) => Ok(n),
        Err(e) => Err(db_err(e)),
    }
}

/// Relies on rusqlite::Connection::execute_batch: remove every stored route
/// with its children.
#[verifier::external_body]
fn w_clear_routes(con: &rusqlite::Connection) -> (r: Result<(), StoreError>) {
    let q = con.execute_batch(
        "DELETE FROM route_waypoints; DELETE FROM route_detours; DELETE FROM routes;",
    );
    match q {
        Ok(_) => Ok(()),
        Err(e) => Err(db_err(e)),
    }
}


/// The canonical textual form of the options stored beside a route.
pub open spec fn s_options_json(o: RouteOptions) -> Seq<char> {
    "{\"clearance\":"@ + s_ascii_chars(s_dec_i(o.clearance as int)) + ",\"max_iters\":"@
        + s_ascii_chars(s_dec_u(o.max_iters as int)) + ",\"max_offset_tries\":"@ + s_ascii_chars(
        s_dec_u(o.max_offset_tries as int),
    ) + ",\"offset_growth\":"@ + s_ascii_chars(s_dec_i(o.offset_growth as int))
        + ",\"turn_weight\":"@ + s_ascii_chars(s_dec_i(o.turn_weight as int)) + ",\"back_weight\":"@
        + s_ascii_chars(s_dec_i(o.back_weight as int)) + ",\"proximity_weight\":"@ + s_ascii_chars(
        s_dec_i(o.proximity_weight as int),
    ) + ",\"proximity_margin\":"@ + s_ascii_chars(s_dec_i(o.proximity_margin as int)) + "}"@
}

/// The decimal text of an integer.
pub fn i64_text(v: i64) -> (r: String)
    ensures
        r@ == s_ascii_chars(s_dec_i(v as int)),
{
    let mut b: Vec<u8> = Vec::new();
    crate::fingerprint::push_dec_i(&mut b, v);
    proof {
        lemma_dec_i_ascii(v as int);
    }
    ascii_to_string(b)
}

/// The decimal text of a count.
pub fn count_text(v: usize) -> (r: String)
    ensures
        r@ == s_ascii_chars(s_dec_u(v as int)),
{
    let mut b: Vec<u8> = Vec::new();
    crate::fingerprint::push_dec_u(&mut b, v as u64);
    proof {
        lemma_dec_u_ascii(v as int);
    }
    ascii_to_string(b)
}

/// Render the canonical options text.
pub fn options_json_text(o: &RouteOptions) -> (r: String)
    requires
        opts_in_bounds(*o),
    ensures
        r@ == s_options_json(*o),
{
    let mut s = String::from_str("{\"clearance\":");
    s.append(i64_text(o.clearance).as_str());
    s.append(",\"max_iters\":");
    s.append(count_text(o.max_iters).as_str());
    s.append(",\"max_offset_tries\":");
    s.append(count_text(o.max_offset_tries).as_str());
    s.append(",\"offset_growth\":");
    s.append(i64_text(o.offset_growth).as_str());
    s.append(",\"turn_weight\":");
    s.append(i64_text(o.turn_weight).as_str());
    s.append(",\"back_weight\":");
    s.append(i64_text(o.back_weight).as_str());
    s.append(",\"proximity_weight\":");
    s.append(i64_text(o.proximity_weight).as_str());
    s.append(",\"proximity_margin\":");
    s.append(i64_text(o.proximity_margin).as_str());
    s.append("}");
    proof {
        assert(s@ =~= s_options_json(*o));
    }
    s
}

/// The display name of a computed waypoint: `Detour ` and the first eight
/// hex digits of its fingerprint.
fn detour_name(fp_bytes: &Vec<u8>) -> (r: String)
    requires
        fp_bytes@.len() >= 8,
        forall|i: int| 0 <= i < fp_bytes@.len() ==> fp_bytes@[i] < 128,
    ensures
        r@ == "Detour "@ + s_ascii_chars(fp_bytes@.take(8)),
{
    let mut pre: Vec<u8> = Vec::new();
    for i in 0..8usize
        invariant
            fp_bytes@.len() >= 8,
            pre@ == fp_bytes@.take(i as int),
            forall|j: int| 0 <= j < fp_bytes@.len() ==> fp_bytes@[j] < 128,
    {
        pre.push(fp_bytes[i]);
        proof {
            assert(fp_bytes@.take(i + 1) =~= fp_bytes@.take(i as int).push(fp_bytes@[i as int]));
        }
    }
    let mut name = String::from_str("Detour ");
    name.append(ascii_to_string(pre).as_str());
    name
}

/// Upsert the route header under the unique `(from, to)` pair and return
/// its id.
pub fn upsert_route_id(
    con: &rusqlite::Connection,
    from_planet_fid: i64,
    to_planet_fid: i64,
    algo_version: &str,
    options_json: &str,
    length: i64,
    iterations: i64,
) -> Result<i64, StoreError> {
    w_upsert_route(con, from_planet_fid, to_planet_fid, algo_version, options_json, length,
        iterations)?;
    let looked_up = w_route_id(con, from_planet_fid, to_planet_fid)?;
    route_id_from_lookup(looked_up)
}

/// The id the upsert settles on: the looked-up id of the pair's row, or the
/// library's own error when the row that was just upserted cannot be found.
fn route_id_from_lookup(looked_up: Option<i64>) -> (r: Result<i64, StoreError>)
    ensures
        looked_up matches Some(id) ==> r == Ok::<i64, StoreError>(id),
        looked_up is None ==> (r matches Err(e) && e.message@ == "route id missing after upsert"@),
{
    match looked_up {
        Some(id) => Ok(id),
        None => Err(text_err("route id missing after upsert")),
    }
}

/// The catalog's reuse outcome: a waypoint found under the fingerprint is
/// handed back under its existing id, and no row is created for it.
fn reused_entry(id: i64) -> (r: (i64, bool))
    ensures
        r == (id, false),
{
    (id, false)
}

/// The catalog's mint outcome: the id of the freshly inserted row, marked
/// as newly created.
fn minted_entry(id: i64) -> (r: (i64, bool))
    ensures
        r == (id, true),
{
    (id, true)
}

/// Insert a computed waypoint unless one with this fingerprint exists;
/// returns its id and whether a new row was created. The reuse decision is
/// carried by the two contracted outcomes above: a fingerprint hit reuses
/// the found id without inserting, a miss inserts and reports the new id.
pub fn upsert_computed_waypoint(
    con: &rusqlite::Connection,
    name: &str,
    name_norm: &str,
    x: i64,
    y: i64,
    kind: &str,
    note: Option<&str>,
    fingerprint: &str,
) -> Result<(i64, bool), StoreError> {
    match find_waypoint_id_by_fingerprint(con, fingerprint)? {
        Some(id) => Ok(reused_entry(id)),
        None => {
            let id = w_insert_waypoint(con, name, name_norm, x, y, kind, note, Some(fingerprint))?;
            Ok(minted_entry(id))
        },
    }
}

/// Insert one polyline row.
pub fn insert_route_waypoint(
    con: &rusqlite::Connection,
    route_id: i64,
    seq: i64,
    x: i64,
    y: i64,
    waypoint_id: Option<i64>,
) -> Result<(), StoreError> {
    w_insert_route_waypoint(con, route_id, seq, x, y, waypoint_id)
}

/// Insert one detour row; the stored total is the exact sum of the four
/// score components.
pub fn insert_route_detour(
    con: &rusqlite::Connection,
    route_id: i64,
    idx: i64,
    d: &DetourDecision,
    waypoint_id: Option<i64>,
) -> (r: Result<(), StoreError>)
    requires
        detour_persistable(*d),
{
    let total = d.score.total();
    w_insert_route_detour(con, route_id, idx, d, waypoint_id, total)
}

/// The id recorded for the first matching detour waypoint, if any.
pub open spec fn s_lookup_wp(ids: Seq<(Point, i64)>, p: Point) -> Option<i64>
    decreases ids.len(),
{
    if ids.len() == 0 {
        None
    } else if ids[0].0 == p {
        Some(ids[0].1)
    } else {
        s_lookup_wp(ids.drop_first(), p)
    }
}

fn lookup_detour_id(ids: &Vec<(Point, i64)>, p: Point) -> (r: Option<i64>)
    ensures
        r == s_lookup_wp(ids@, p),
{
    let n = ids.len();
    proof {
        assert(ids@.skip(0) =~= ids@);
    }
    for i in 0..n
        invariant
            n == ids@.len(),
            s_lookup_wp(ids@.skip(i as int), p) == s_lookup_wp(ids@, p),
    {
        proof {
            assert(ids@.skip(i as int).drop_first() =~= ids@.skip(i + 1));
            assert(ids@.skip(i as int)[0] == ids@[i as int]);
        }
        if ids[i].0.x == p.x && ids[i].0.y == p.y {
            return Some(ids[i].1);
        }
    }
    None
}

/// The transactional body of a route upsert.
fn persist_route_tx(
    con: &rusqlite::Connection,
    from_planet_fid: i64,
    to_planet_fid: i64,
    opts: RouteOptions,
    route: &Route,
) -> (r: Result<i64, StoreError>)
    requires
        opts_in_bounds(opts),
        from_planet_fid > i64::MIN,
        to_planet_fid > i64::MIN,
        route.waypoints@.len() <= i64::MAX,
        route.detours@.len() <= i64::MAX,
        route.iterations <= i64::MAX,
        forall|k: int|
            0 <= k < route.detours@.len() ==> detour_persistable(#[trigger] route.detours@[k]),
{
    let oj = options_json_text(&opts);
    let route_id = upsert_route_id(
        con,
        from_planet_fid,
        to_planet_fid,
        "router_v1",
        oj.as_str(),
        route.length,
        route.iterations as i64,
    )?;
    w_delete_route_waypoints(con, route_id)?;
    w_delete_route_detours(con, route_id)?;

    let mut detour_ids: Vec<(Point, i64)> = Vec::new();
    let nd = route.detours.len();
    for idx in 0..nd
        invariant
            nd == route.detours@.len(),
            nd <= i64::MAX,
            from_planet_fid > i64::MIN,
            to_planet_fid > i64::MIN,
            forall|k: int|
                0 <= k < route.detours@.len() ==> detour_persistable(#[trigger] route.detours@[k]),
    {
        let d = &route.detours[idx];
        let fpb = detour_fp_bytes(from_planet_fid, to_planet_fid, d);
        let name = detour_name(&fpb);
        let name_norm = normalize_text(name.as_str());
        let fp_str = ascii_to_string(fpb);
        let up = upsert_computed_waypoint(
            con,
            name.as_str(),
            name_norm.as_str(),
            d.waypoint.x,
            d.waypoint.y,
            "computed",
            Some("Computed detour waypoint"),
            fp_str.as_str(),
        )?;
        let wp_id = up.0;
        let dist_to_ob = crate::geometry::dist(d.waypoint, d.obstacle_center);
        // planet links are best-effort, as the obstacle planet may be gone
        let _ = link_waypoint_to_planet(con, wp_id, d.obstacle_id, "avoid", Some(dist_to_ob));
        insert_route_detour(con, route_id, idx as i64, d, Some(wp_id))?;
        detour_ids.push((d.waypoint, wp_id));
    }

    let nw = route.waypoints.len();
    for seq in 0..nw
        invariant
            nw == route.waypoints@.len(),
            nw <= i64::MAX,
    {
        let p = route.waypoints[seq];
        let wid = lookup_detour_id(&detour_ids, p);
        w_insert_route_waypoint(con, route_id, seq as i64, p.x, p.y, wid)?;
    }
    Ok(route_id)
}

/// Persist a computed route: upsert the header, replace the children, and
/// catalog each detour waypoint by fingerprint, all in one transaction that
/// rolls back whole on any failure.
pub fn persist_route(
    con: &rusqlite::Connection,
    from_planet_fid: i64,
    to_planet_fid: i64,
    opts: RouteOptions,
    route: &Route,
) -> (r: Result<i64, StoreError>)
    requires
        opts_in_bounds(opts),
        from_planet_fid > i64::MIN,
        to_planet_fid > i64::MIN,
        route.waypoints@.len() <= i64::MAX,
        route.detours@.len() <= i64::MAX,
        route.iterations <= i64::MAX,
        forall|k: int|
            0 <= k < route.detours@.len() ==> detour_persistable(#[trigger] route.detours@[k]),
{
    w_begin(con)?;
    match persist_route_tx(con, from_planet_fid, to_planet_fid, opts, route) {
        Ok(id) => match w_commit(con) {
            Ok(_) => Ok(id),
            Err(e) => {
                let _ = w_rollback(con);
                Err(e)
            },
        },
        Err(e) => {
            let _ = w_rollback(con);
            Err(e)
        },
    }
}

/// A route header row built from its two queried parts.
fn assemble_route_row(
    ids: (i64, i64, i64, String, String, String, String),
    stats: (Option<i64>, Option<i64>, String, Option<String>, String, Option<String>),
) -> (r: RouteRow)
    ensures
        r.id == ids.0,
        r.from_planet_fid == ids.1,
        r.to_planet_fid == ids.2,
        r.from_planet_name == ids.3,
        r.to_planet_name == ids.4,
        r.algo_version == ids.5,
        r.options_json == ids.6,
        r.length == stats.0,
        r.iterations == stats.1,
        r.status == stats.2,
        r.error == stats.3,
        r.created_at == stats.4,
        r.updated_at == stats.5,
{
    RouteRow {
        id: ids.0,
        from_planet_fid: ids.1,
        to_planet_fid: ids.2,
        from_planet_name: ids.3,
        to_planet_name: ids.4,
        algo_version: ids.5,
        options_json: ids.6,
        length: stats.0,
        iterations: stats.1,
        status: stats.2,
        error: stats.3,
        created_at: stats.4,
        updated_at: stats.5,
    }
}

/// Load a route header row with its endpoint names.
fn load_route_header(con: &rusqlite::Connection, route_id: i64) -> Result<
    Option<RouteRow>,
    StoreError,
> {
    let ids = w_route_header_ids(con, route_id)?;
    let stats = w_route_header_stats(con, route_id)?;
    match (ids, stats) {
        (Some(a), Some(b)) => Ok(Some(assemble_route_row(a, b))),
        _ => Ok(None),
    }
}

/// The stored route of a `(from, to)` pair, if any.
pub fn get_route_by_from_to(
    con: &rusqlite::Connection,
    from_planet_fid: i64,
    to_planet_fid: i64,
) -> Result<Option<RouteRow>, StoreError> {
    match w_route_id(con, from_planet_fid, to_planet_fid)? {
        None => Ok(None),
        Some(id) => load_route_header(con, id),
    }
}

/// One polyline row equals its queried tuple, field for field.
pub open spec fn waypoint_row_matches(
    w: RouteWaypointRow,
    t: (i64, i64, i64, Option<i64>, Option<String>, Option<String>),
) -> bool {
    &&& w.seq == t.0
    &&& w.x == t.1
    &&& w.y == t.2
    &&& w.waypoint_id == t.3
    &&& w.waypoint_name == t.4
    &&& w.waypoint_kind == t.5
}

/// Build the polyline rows from the queried tuples, in order.
fn assemble_route_waypoints(
    rows: &Vec<(i64, i64, i64, Option<i64>, Option<String>, Option<String>)>,
) -> (r: Vec<RouteWaypointRow>)
    ensures
        r@.len() == rows@.len(),
        forall|k: int| 0 <= k < r@.len() ==> waypoint_row_matches(#[trigger] r@[k], rows@[k]),
{
    let mut waypoints: Vec<RouteWaypointRow> = Vec::new();
    let nw = rows.len();
    for i in 0..nw
        invariant
            nw == rows@.len(),
            waypoints@.len() == i,
            forall|k: int|
                0 <= k < i ==> waypoint_row_matches(#[trigger] waypoints@[k], rows@[k]),
    {
        let t = &rows[i];
        let name = match &t.4 {
            Some(s) => Some(s.clone()),
            None => None,
        };
        let kind = match &t.5 {
            Some(s) => Some(s.clone()),
            None => None,
        };
        waypoints.push(
            RouteWaypointRow {
                seq: t.0,
                x: t.1,
                y: t.2,
                waypoint_id: t.3,
                waypoint_name: name,
                waypoint_kind: kind,
            },
        );
    }
    waypoints
}

/// One detour row equals its three queried tuples, field for field.
pub open spec fn detour_row_matches(
    d: RouteDetourRow,
    g: (i64, i64, i64, i64, String, i64, i64, i64),
    c: (i64, i64, i64, i64, i64, i64, i64, i64, Option<i64>),
    s: (i64, i64, i64, i64, i64, i64, Option<i64>, i64),
) -> bool {
    &&& d.idx == g.0
    &&& d.iteration == g.1
    &&& d.segment_index == g.2
    &&& d.obstacle_id == g.3
    &&& d.obstacle_name == g.4
    &&& d.obstacle_x == g.5
    &&& d.obstacle_y == g.6
    &&& d.obstacle_radius == g.7
    &&& d.closest_t == c.1
    &&& d.closest_qx == c.2
    &&& d.closest_qy == c.3
    &&& d.closest_dist == c.4
    &&& d.offset_used == c.5
    &&& d.wp_x == c.6
    &&& d.wp_y == c.7
    &&& d.waypoint_id == c.8
    &&& d.score_base == s.1
    &&& d.score_turn == s.2
    &&& d.score_back == s.3
    &&& d.score_proximity == s.4
    &&& d.score_total == s.5
    &&& d.tries_used == s.6
    &&& d.tries_exhausted == s.7
}

/// The three detour row sets agree in length and carry the same `idx` at
/// every position.
pub open spec fn detour_rows_aligned(
    geo: Seq<(i64, i64, i64, i64, String, i64, i64, i64)>,
    close: Seq<(i64, i64, i64, i64, i64, i64, i64, i64, Option<i64>)>,
    sc: Seq<(i64, i64, i64, i64, i64, i64, Option<i64>, i64)>,
) -> bool {
    &&& geo.len() == close.len()
    &&& geo.len() == sc.len()
    &&& forall|k: int|
        0 <= k < geo.len() ==> (#[trigger] geo[k]).0 == close[k].0 && geo[k].0 == sc[k].0
}

/// Zip the three queried detour row sets into detour rows: succeeds exactly
/// when the sets align, and then carries every field over one-for-one.
fn assemble_route_detours(
    geo: &Vec<(i64, i64, i64, i64, String, i64, i64, i64)>,
    close: &Vec<(i64, i64, i64, i64, i64, i64, i64, i64, Option<i64>)>,
    sc: &Vec<(i64, i64, i64, i64, i64, i64, Option<i64>, i64)>,
) -> (r: Result<Vec<RouteDetourRow>, StoreError>)
    ensures
        r is Ok <==> detour_rows_aligned(geo@, close@, sc@),
        r matches Err(e) ==> e.message@ == "inconsistent detour rows"@,
        r matches Ok(v) ==> v@.len() == geo@.len() && forall|k: int|
            0 <= k < v@.len() ==> detour_row_matches(#[trigger] v@[k], geo@[k], close@[k], sc@[k]),
{
    if geo.len() != close.len() || geo.len() != sc.len() {
        return Err(text_err("inconsistent detour rows"));
    }
    let mut detours: Vec<RouteDetourRow> = Vec::new();
    let nd = geo.len();
    for i in 0..nd
        invariant
            nd == geo@.len(),
            nd == close@.len(),
            nd == sc@.len(),
            detours@.len() == i,
            forall|k: int|
                0 <= k < i ==> (#[trigger] geo@[k]).0 == close@[k].0 && geo@[k].0 == sc@[k].0,
            forall|k: int|
                0 <= k < i ==> detour_row_matches(
                    #[trigger] detours@[k],
                    geo@[k],
                    close@[k],
                    sc@[k],
                ),
    {
        let g = &geo[i];
        let c = &close[i];
        let s = &sc[i];
        if g.0 != c.0 || g.0 != s.0 {
            proof {
                assert(!detour_rows_aligned(geo@, close@, sc@));
            }
            return Err(text_err("inconsistent detour rows"));
        }
        detours.push(
            RouteDetourRow {
                idx: g.0,
                iteration: g.1,
                segment_index: g.2,
                obstacle_id: g.3,
                obstacle_name: g.4.clone(),
                obstacle_x: g.5,
                obstacle_y: g.6,
                obstacle_radius: g.7,
                closest_t: c.1,
                closest_qx: c.2,
                closest_qy: c.3,
                closest_dist: c.4,
                offset_used: c.5,
                wp_x: c.6,
                wp_y: c.7,
                waypoint_id: c.8,
                score_base: s.1,
                score_turn: s.2,
                score_back: s.3,
                score_proximity: s.4,
                score_total: s.5,
                tries_used: s.6,
                tries_exhausted: s.7,
            },
        );
    }
    Ok(detours)
}

/// Load a stored route whole: header, ordered polyline, ordered detours
/// with resolved obstacle names. The queried rows are carried into the
/// result one-for-one by the contracted assembly functions above; the only
/// failure this function adds to the database's own is the assembler's
/// misalignment error. The polyline comes back ascending in `seq` and the
/// detours ascending in `idx`.
pub fn load_route(con: &rusqlite::Connection, route_id: i64) -> (r: Result<
    Option<RouteLoaded>,
    StoreError,
>)
    ensures
        r matches Ok(Some(l)) ==> {
            &&& forall|i: int, j: int|
                0 <= i < j < l.waypoints@.len() ==> (#[trigger] l.waypoints@[i]).seq
                    <= (#[trigger] l.waypoints@[j]).seq
            &&& forall|i: int, j: int|
                0 <= i < j < l.detours@.len() ==> (#[trigger] l.detours@[i]).idx
                    <= (#[trigger] l.detours@[j]).idx
        },
{
    let header = load_route_header(con, route_id)?;
    let route = match header {
        Some(r) => r,
        None => {
            return Ok(None);
        },
    };
    let wps_raw = w_route_waypoints(con, route_id)?;
    let waypoints = assemble_route_waypoints(&wps_raw);
    let geo = w_route_detours_geo(con, route_id)?;
    let close = w_route_detours_close(con, route_id)?;
    let sc = w_route_detours_score(con, route_id)?;
    let detours = assemble_route_detours(&geo, &close, &sc)?;
    proof {
        assert forall|i: int, j: int|
            0 <= i < j < waypoints@.len() implies (#[trigger] waypoints@[i]).seq
            <= (#[trigger] waypoints@[j]).seq by {
            assert(waypoint_row_matches(waypoints@[i], wps_raw@[i]));
            assert(waypoint_row_matches(waypoints@[j], wps_raw@[j]));
        }
        assert forall|i: int, j: int|
            0 <= i < j < detours@.len() implies (#[trigger] detours@[i]).idx
            <= (#[trigger] detours@[j]).idx by {
            assert(detour_row_matches(detours@[i], geo@[i], close@[i], sc@[i]));
            assert(detour_row_matches(detours@[j], geo@[j], close@[j], sc@[j]));
        }
    }
    Ok(Some(RouteLoaded { route, waypoints, detours }))
}

/// Obstacles materialized from plain catalog rows: endpoint planets are
/// excluded, rows with out-of-range values are skipped, the count is capped,
/// and each kept planet gets the per-compute safety radius.
pub open spec fn s_obstacles_from_catalog(
    rows: Seq<(i64, String, i64, i64)>,
    from_fid: i64,
    to_fid: i64,
    safety: i64,
) -> Seq<Obstacle>
    decreases rows.len(),
{
    if rows.len() == 0 {
        Seq::empty()
    } else {
        let pre = s_obstacles_from_catalog(rows.drop_last(), from_fid, to_fid, safety);
        let t = rows.last();
        if t.0 == from_fid || t.0 == to_fid || t.0 == i64::MIN || crate::fixed::s_abs(t.2 as int)
            > MAX_UNIT as int || crate::fixed::s_abs(t.3 as int) > MAX_UNIT as int || pre.len()
            >= MAX_OBSTACLES {
            pre
        } else {
            pre.push(Obstacle { id: t.0, name: t.1, center: Point { x: t.2, y: t.3 }, radius: safety })
        }
    }
}

/// Materialize catalog rows as obstacles with the safety radius.
pub fn obstacles_from_catalog(
    rows: &Vec<(i64, String, i64, i64)>,
    from_fid: i64,
    to_fid: i64,
    safety: i64,
) -> (r: Vec<Obstacle>)
    requires
        0 <= safety <= MAX_UNIT,
    ensures
        r@ == s_obstacles_from_catalog(rows@, from_fid, to_fid, safety),
        wf_obs(r@),
{
    let mut out: Vec<Obstacle> = Vec::new();
    let n = rows.len();
    for i in 0..n
        invariant
            n == rows@.len(),
            0 <= safety <= MAX_UNIT,
            out@ == s_obstacles_from_catalog(rows@.take(i as int), from_fid, to_fid, safety),
            wf_obs(out@),
    {
        proof {
            assert(rows@.take(i + 1).drop_last() =~= rows@.take(i as int));
            assert(rows@.take(i + 1).last() == rows@[i as int]);
        }
        let t = &rows[i];
        let skip = t.0 == from_fid || t.0 == to_fid || t.0 == i64::MIN || t.2 < -MAX_UNIT || t.2
            > MAX_UNIT || t.3 < -MAX_UNIT || t.3 > MAX_UNIT || out.len() >= MAX_OBSTACLES;
        if !skip {
            out.push(
                Obstacle {
                    id: t.0,
                    name: t.1.clone(),
                    center: Point { x: t.2, y: t.3 },
                    radius: safety,
                },
            );
        }
    }
    proof {
        assert(rows@.take(n as int) =~= rows@);
    }
    out
}

/// Obstacles materialized from annotated rows, each with its configured
/// radius; malformed rows are skipped and the count is capped.
pub open spec fn s_obstacles_from_annotated(
    rows: Seq<(i64, String, i64, i64, i64)>,
    from_fid: i64,
    to_fid: i64,
) -> Seq<Obstacle>
    decreases rows.len(),
{
    if rows.len() == 0 {
        Seq::empty()
    } else {
        let pre = s_obstacles_from_annotated(rows.drop_last(), from_fid, to_fid);
        let t = rows.last();
        if t.0 == from_fid || t.0 == to_fid || t.0 == i64::MIN || crate::fixed::s_abs(t.2 as int)
            > MAX_UNIT as int || crate::fixed::s_abs(t.3 as int) > MAX_UNIT as int || t.4 < 0
            || t.4 > MAX_UNIT || pre.len() >= MAX_OBSTACLES {
            pre
        } else {
            pre.push(Obstacle { id: t.0, name: t.1, center: Point { x: t.2, y: t.3 }, radius: t.4 })
        }
    }
}

/// Materialize annotated obstacle rows.
pub fn obstacles_from_annotated(
    rows: &Vec<(i64, String, i64, i64, i64)>,
    from_fid: i64,
    to_fid: i64,
) -> (r: Vec<Obstacle>)
    ensures
        r@ == s_obstacles_from_annotated(rows@, from_fid, to_fid),
        wf_obs(r@),
{
    let mut out: Vec<Obstacle> = Vec::new();
    let n = rows.len();
    for i in 0..n
        invariant
            n == rows@.len(),
            out@ == s_obstacles_from_annotated(rows@.take(i as int), from_fid, to_fid),
            wf_obs(out@),
    {
        proof {
            assert(rows@.take(i + 1).drop_last() =~= rows@.take(i as int));
            assert(rows@.take(i + 1).last() == rows@[i as int]);
        }
        let t = &rows[i];
        let skip = t.0 == from_fid || t.0 == to_fid || t.0 == i64::MIN || t.2 < -MAX_UNIT || t.2
            > MAX_UNIT || t.3 < -MAX_UNIT || t.3 > MAX_UNIT || t.4 < 0 || t.4 > MAX_UNIT
            || out.len() >= MAX_OBSTACLES;
        if !skip {
            out.push(
                Obstacle { id: t.0, name: t.1.clone(), center: Point { x: t.2, y: t.3 }, radius: t.4 },
            );
        }
    }
    proof {
        assert(rows@.take(n as int) =~= rows@);
    }
    out
}

/// One prune candidate, as reported to the caller.
#[derive(Debug, Clone)]
pub struct PruneCandidate {
    pub id: i64,
    pub name: String,
    pub updated: String,
    pub links_count: i64,
}

/// What a prune run found and did.
#[derive(Debug, Clone)]
pub struct PruneReport {
    pub candidates: Vec<PruneCandidate>,
    pub deleted: usize,
}

/// One prune candidate equals its queried tuple, field for field.
pub open spec fn prune_candidate_matches(c: PruneCandidate, t: (i64, String, String, i64)) -> bool {
    &&& c.id == t.0
    &&& c.name == t.1
    &&& c.updated == t.2
    &&& c.links_count == t.3
}

/// Build the prune report's candidate list from the queried tuples, in
/// order and one-for-one.
fn assemble_prune_candidates(rows: &Vec<(i64, String, String, i64)>) -> (r: Vec<PruneCandidate>)
    ensures
        r@.len() == rows@.len(),
        forall|k: int| 0 <= k < r@.len() ==> prune_candidate_matches(#[trigger] r@[k], rows@[k]),
{
    let mut candidates: Vec<PruneCandidate> = Vec::new();
    let n = rows.len();
    for i in 0..n
        invariant
            n == rows@.len(),
            candidates@.len() == i,
            forall|k: int|
                0 <= k < i ==> prune_candidate_matches(#[trigger] candidates@[k], rows@[k]),
    {
        let t = &rows[i];
        candidates.push(
            PruneCandidate {
                id: t.0,
                name: t.1.clone(),
                updated: t.2.clone(),
                links_count: t.3,
            },
        );
    }
    candidates
}

/// Remove orphan computed waypoints. The safe mode only deletes waypoints
/// without planet links; include-linked drops the links first. A dry run
/// reports the candidates and deletes nothing; the report mirrors the
/// queried candidate rows one-for-one through the contracted assembler.
/// Manual waypoints are never touched.
pub fn prune_waypoints(
    con: &rusqlite::Connection,
    include_linked: bool,
    dry_run: bool,
) -> (r: Result<PruneReport, StoreError>)
    ensures
        dry_run ==> match r {
            Ok(rep) => rep.deleted == 0,
            Err(_) => true,
        },
{
    let raw = if include_linked {
        w_prune_candidates_linked(con)?
    } else {
        w_prune_candidates_safe(con)?
    };
    let candidates = assemble_prune_candidates(&raw);
    if dry_run {
        return Ok(PruneReport { candidates, deleted: 0 });
    }
    w_begin(con)?;
    if include_linked {
        match w_prune_unlink(con) {
            Ok(_) => {},
            Err(e) => {
                let _ = w_rollback(con);
                return Err(e);
            },
        }
    }
    let del = if include_linked {
        w_prune_delete_linked(con)
    } else {
        w_prune_delete_safe(con)
    };
    let deleted = match del {
        Ok(k) => k,
        Err(e) => {
            let _ = w_rollback(con);
            return Err(e);
        },
    };
    match w_commit(con) {
        Ok(_) => Ok(PruneReport { candidates, deleted }),
        Err(e) => {
            let _ = w_rollback(con);
            Err(e)
        },
    }
}

/// Remove every stored route with its children.
pub fn clear_routes(con: &rusqlite::Connection) -> Result<(), StoreError> {
    w_clear_routes(con)
}

/// Why a compute request failed.
#[derive(Debug, Clone)]
pub enum ComputeError {
    /// Neither a planet name nor an alias matched the reference.
    PlanetNotFound { name: String },
    /// Both references resolve to the same coordinates.
    SamePoint,
    /// A resolved coordinate or identifier is outside the supported range.
    CoordinatesOutOfRange,
    /// `max_offset_tries` was zero or `offset_growth` not above one.
    InvalidOptions,
    /// No candidate at any allowed offset was collision-free.
    NoDetour { obstacle_id: i64, segment_index: usize },
    /// The iteration cap was reached before the polyline was clear.
    MaxItersExceeded,
    /// The route-upsert transaction failed and was rolled back.
    Storage(StoreError),
}

/// Resolve the endpoints, select obstacles inside the bounding box around
/// the segment (annotated obstacle roles first, the plain catalog as
/// fallback), run the planner and persist the result.
///
/// Failure policy: a failed compute persists nothing. On a geometric or
/// termination failure the store is left untouched — no route row with a
/// failed status is written — and the caller sees the error alone.
pub fn compute(
    con: &rusqlite::Connection,
    from_ref: &str,
    to_ref: &str,
    opts: RouteOptions,
    safety: i64,
    bbox_margin: i64,
    max_obstacles: usize,
) -> (r: Result<(i64, Route), ComputeError>)
    requires
        opts_in_bounds(opts),
        0 <= safety <= MAX_UNIT,
        0 <= bbox_margin <= MAX_UNIT,
        max_obstacles <= MAX_OBSTACLES,
    ensures
        r is Ok ==> opts.max_offset_tries >= 1 && opts.offset_growth > crate::fixed::SCALE,
        r matches Ok(p) ==> {
            &&& p.1.waypoints@.len() >= 1
            &&& p.1.iterations <= opts.max_iters
            &&& p.1.detours@.len() == p.1.iterations
            &&& p.1.length as int == crate::router::s_polyline_len(p.1.waypoints@)
            &&& forall|k: int|
                0 <= k < p.1.detours@.len() ==> crate::router::detour_ok(
                    #[trigger] p.1.detours@[k],
                    opts,
                )
        },
{
    let from_norm = normalize_text(from_ref);
    let to_norm = normalize_text(to_ref);
    let from_p = match find_planet_for_info(con, from_norm.as_str()) {
        Ok(Some(p)) => p,
        Ok(None) => {
            return Err(ComputeError::PlanetNotFound { name: from_ref.to_owned() });
        },
        Err(e) => {
            return Err(ComputeError::Storage(e));
        },
    };
    let to_p = match find_planet_for_info(con, to_norm.as_str()) {
        Ok(Some(p)) => p,
        Ok(None) => {
            return Err(ComputeError::PlanetNotFound { name: to_ref.to_owned() });
        },
        Err(e) => {
            return Err(ComputeError::Storage(e));
        },
    };
    if from_p.x == to_p.x && from_p.y == to_p.y {
        return Err(ComputeError::SamePoint);
    }
    if from_p.x < -MAX_UNIT || from_p.x > MAX_UNIT || from_p.y < -MAX_UNIT || from_p.y > MAX_UNIT
        || to_p.x < -MAX_UNIT || to_p.x > MAX_UNIT || to_p.y < -MAX_UNIT || to_p.y > MAX_UNIT
        || from_p.fid == i64::MIN || to_p.fid == i64::MIN {
        return Err(ComputeError::CoordinatesOutOfRange);
    }
    let start = Point::new(from_p.x, from_p.y);
    let end = Point::new(to_p.x, to_p.y);

    let min_x = (if start.x < end.x {
        start.x
    } else {
        end.x
    }) - bbox_margin;
    let max_x = (if start.x > end.x {
        start.x
    } else {
        end.x
    }) + bbox_margin;
    let min_y = (if start.y < end.y {
        start.y
    } else {
        end.y
    }) - bbox_margin;
    let max_y = (if start.y > end.y {
        start.y
    } else {
        end.y
    }) + bbox_margin;
    let limit = max_obstacles as i64;

    let annotated = match list_routing_obstacles_in_bbox(
        con,
        min_x,
        max_x,
        min_y,
        max_y,
        limit,
        safety,
    ) {
        Ok(v) => v,
        Err(e) => {
            return Err(ComputeError::Storage(e));
        },
    };
    let obstacles = if annotated.len() > 0 {
        obstacles_from_annotated(&annotated, from_p.fid, to_p.fid)
    } else {
        let raw = match list_planets_in_bbox(con, min_x, max_x, min_y, max_y, limit) {
            Ok(v) => v,
            Err(e) => {
                return Err(ComputeError::Storage(e));
            },
        };
        obstacles_from_catalog(&raw, from_p.fid, to_p.fid, safety)
    };

    let route = match compute_route(start, end, &obstacles, opts) {
        Ok(r) => {
            // a successful plan certifies the options: the model rejects a
            // zero try budget or a growth factor of one or below
            proof {
                assert(start != end);
                assert(opts.max_offset_tries >= 1 && opts.offset_growth > crate::fixed::SCALE);
            }
            r
        },
        Err(RouteError::InvalidOptions) => {
            return Err(ComputeError::InvalidOptions);
        },
        Err(RouteError::NoDetour { obstacle_id, segment_index }) => {
            return Err(ComputeError::NoDetour { obstacle_id, segment_index });
        },
        Err(RouteError::MaxItersExceeded) => {
            return Err(ComputeError::MaxItersExceeded);
        },
    };
    let route_id = match persist_route(con, from_p.fid, to_p.fid, opts, &route) {
        Ok(id) => id,
        Err(e) => {
            return Err(ComputeError::Storage(e));
        },
    };
    Ok((route_id, route))
}

/// The last stored route of a pair of planet references.
pub fn last(con: &rusqlite::Connection, from_ref: &str, to_ref: &str) -> Result<
    Option<RouteRow>,
    ComputeError,
> {
    let from_norm = normalize_text(from_ref);
    let to_norm = normalize_text(to_ref);
    let from_p = match find_planet_for_info(con, from_norm.as_str()) {
        Ok(Some(p)) => p,
        Ok(None) => {
            return Err(ComputeError::PlanetNotFound { name: from_ref.to_owned() });
        },
        Err(e) => {
            return Err(ComputeError::Storage(e));
        },
    };
    let to_p = match find_planet_for_info(con, to_norm.as_str()) {
        Ok(Some(p)) => p,
        Ok(None) => {
            return Err(ComputeError::PlanetNotFound { name: to_ref.to_owned() });
        },
        Err(e) => {
            return Err(ComputeError::Storage(e));
        },
    };
    match get_route_by_from_to(con, from_p.fid, to_p.fid) {
        Ok(v) => Ok(v),
        Err(e) => Err(ComputeError::Storage(e)),
    }
}


} // verus!
