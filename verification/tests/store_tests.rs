use rusqlite::Connection;
use sw_galaxy_map::explain::build_explain_export;
use sw_galaxy_map::router::RouteOptions;
use sw_galaxy_map::store::{
    clear_routes, compute, ensure_schema, get_route_by_from_to, has_table, last, load_route,
    prune_waypoints, ComputeError,
};

fn test_db() -> Connection {
    let con = Connection::open_in_memory().expect("in-memory database");
    ensure_schema(&con).expect("schema");
    con
}

fn insert_planet(con: &Connection, fid: i64, name: &str, x: f64, y: f64) {
    let norm = sw_galaxy_map::normalize::normalize_text(name);
    con.execute(
        "INSERT INTO planets(FID, Planet, planet_norm, X, Y) VALUES (?1, ?2, ?3, ?4, ?5)",
        (fid, name, norm, x, y),
    )
    .expect("insert planet");
}

fn opts() -> RouteOptions {
    RouteOptions {
        clearance: 300,
        ..Default::default()
    }
}

#[test]
fn schema_creates_route_tables() {
    let con = test_db();
    assert!(has_table(&con, "routes").unwrap());
    assert!(has_table(&con, "route_waypoints").unwrap());
    assert!(has_table(&con, "route_detours").unwrap());
    assert!(has_table(&con, "waypoints").unwrap());
    assert!(!has_table(&con, "nonexistent").unwrap());
}

#[test]
fn compute_persists_and_loads_a_route() {
    let con = test_db();
    insert_planet(&con, 1, "Coruscant", 0.0, 0.0);
    insert_planet(&con, 2, "Kessel", 10.0, 0.0);
    insert_planet(&con, 3, "Prakith", 5.0, 0.0);

    let (route_id, route) =
        compute(&con, "Coruscant", "Kessel", opts(), 6_000, 20_000, 512).expect("compute");

    assert!(route.waypoints.len() >= 3);
    let loaded = load_route(&con, route_id).expect("load").expect("present");
    assert_eq!(loaded.route.from_planet_fid, 1);
    assert_eq!(loaded.route.to_planet_fid, 2);
    assert_eq!(loaded.route.from_planet_name, "Coruscant");
    assert_eq!(loaded.route.to_planet_name, "Kessel");
    assert_eq!(loaded.route.status, "ok");
    assert_eq!(loaded.route.length, Some(route.length));
    assert_eq!(loaded.route.iterations, Some(route.iterations as i64));

    // polyline round trip: exact coordinates in order
    assert_eq!(loaded.waypoints.len(), route.waypoints.len());
    for (i, w) in loaded.waypoints.iter().enumerate() {
        assert_eq!(w.seq, i as i64);
        assert_eq!(w.x, route.waypoints[i].x);
        assert_eq!(w.y, route.waypoints[i].y);
    }
    // endpoints carry no catalog link; inserted detour waypoints do
    assert_eq!(loaded.waypoints[0].waypoint_id, None);
    assert!(loaded.waypoints[1].waypoint_id.is_some());

    // detour round trip
    assert_eq!(loaded.detours.len(), route.detours.len());
    for (i, d) in loaded.detours.iter().enumerate() {
        let src = &route.detours[i];
        assert_eq!(d.idx, i as i64);
        assert_eq!(d.obstacle_id, src.obstacle_id);
        assert_eq!(d.obstacle_name, "Prakith");
        assert_eq!(d.obstacle_x, src.obstacle_center.x);
        assert_eq!(d.obstacle_radius, src.obstacle_radius);
        assert_eq!(d.closest_t, src.closest_t);
        assert_eq!(d.closest_dist, src.closest_dist);
        assert_eq!(d.wp_x, src.waypoint.x);
        assert_eq!(d.wp_y, src.waypoint.y);
        assert_eq!(d.score_base, src.score.base);
        assert_eq!(d.score_turn, src.score.turn);
        assert_eq!(d.score_back, src.score.back);
        assert_eq!(d.score_proximity, src.score.proximity);
        assert_eq!(
            d.score_total,
            src.score.base + src.score.turn + src.score.back + src.score.proximity
        );
        assert_eq!(d.tries_used, Some(src.tries_used as i64));
        assert_eq!(d.tries_exhausted != 0, src.tries_exhausted);
    }
}

#[test]
fn recompute_is_idempotent_and_mints_no_new_catalog_rows() {
    let con = test_db();
    insert_planet(&con, 1, "Coruscant", 0.0, 0.0);
    insert_planet(&con, 2, "Kessel", 10.0, 0.0);
    insert_planet(&con, 3, "Prakith", 5.0, 0.0);

    let (id1, _) = compute(&con, "Coruscant", "Kessel", opts(), 6_000, 20_000, 512).unwrap();
    let count_waypoints = |con: &Connection| -> i64 {
        con.query_row("SELECT COUNT(*) FROM waypoints", [], |r| r.get(0))
            .unwrap()
    };
    let count_children = |con: &Connection| -> (i64, i64) {
        let a = con
            .query_row("SELECT COUNT(*) FROM route_waypoints", [], |r| r.get(0))
            .unwrap();
        let b = con
            .query_row("SELECT COUNT(*) FROM route_detours", [], |r| r.get(0))
            .unwrap();
        (a, b)
    };
    let wp1 = count_waypoints(&con);
    let ch1 = count_children(&con);
    let created1: String = con
        .query_row("SELECT created_at FROM routes WHERE id = ?1", [id1], |r| {
            r.get(0)
        })
        .unwrap();

    let (id2, _) = compute(&con, "Coruscant", "Kessel", opts(), 6_000, 20_000, 512).unwrap();

    // the unique (from, to) pair keeps one route row with the same identity
    assert_eq!(id1, id2);
    let n_routes: i64 = con
        .query_row("SELECT COUNT(*) FROM routes", [], |r| r.get(0))
        .unwrap();
    assert_eq!(n_routes, 1);

    // children are replaced, not accumulated
    assert_eq!(count_children(&con), ch1);

    // identical fingerprints: the computed-waypoint catalog gains nothing
    assert_eq!(count_waypoints(&con), wp1);

    // created_at is preserved and updated_at is set on the refreshed row
    let created2: String = con
        .query_row("SELECT created_at FROM routes WHERE id = ?1", [id2], |r| {
            r.get(0)
        })
        .unwrap();
    assert_eq!(created1, created2);
    let updated: Option<String> = con
        .query_row("SELECT updated_at FROM routes WHERE id = ?1", [id2], |r| {
            r.get(0)
        })
        .unwrap();
    assert!(updated.is_some());
}

#[test]
fn compute_errors_are_classified() {
    let con = test_db();
    insert_planet(&con, 1, "Coruscant", 0.0, 0.0);
    insert_planet(&con, 2, "Kessel", 10.0, 0.0);
    insert_planet(&con, 4, "Twin", 0.0, 0.0);

    assert!(matches!(
        compute(&con, "Nowhere", "Kessel", opts(), 6_000, 20_000, 512),
        Err(ComputeError::PlanetNotFound { .. })
    ));
    assert!(matches!(
        compute(&con, "Coruscant", "Twin", opts(), 6_000, 20_000, 512),
        Err(ComputeError::SamePoint)
    ));
    let bad = RouteOptions {
        max_offset_tries: 0,
        ..Default::default()
    };
    assert!(matches!(
        compute(&con, "Coruscant", "Kessel", bad, 6_000, 20_000, 512),
        Err(ComputeError::InvalidOptions)
    ));
    // a failed compute persists nothing
    let n_routes: i64 = con
        .query_row("SELECT COUNT(*) FROM routes", [], |r| r.get(0))
        .unwrap();
    assert_eq!(n_routes, 0);
}

#[test]
fn no_detour_failures_persist_nothing() {
    let con = test_db();
    insert_planet(&con, 1, "Coruscant", 0.0, 0.0);
    insert_planet(&con, 2, "Kessel", 10.0, 0.0);
    insert_planet(&con, 3, "Maw", 5.0, 0.0);

    // a safety radius that swallows both endpoints cannot be detoured
    let got = compute(&con, "Coruscant", "Kessel", opts(), 55_000, 20_000, 512);
    assert!(matches!(got, Err(ComputeError::NoDetour { .. })));
    let n_routes: i64 = con
        .query_row("SELECT COUNT(*) FROM routes", [], |r| r.get(0))
        .unwrap();
    assert_eq!(n_routes, 0);
}

#[test]
fn last_resolves_through_the_pair_index() {
    let con = test_db();
    insert_planet(&con, 1, "Coruscant", 0.0, 0.0);
    insert_planet(&con, 2, "Kessel", 10.0, 0.0);

    assert!(last(&con, "Coruscant", "Kessel").unwrap().is_none());
    let (route_id, _) = compute(&con, "Coruscant", "Kessel", opts(), 6_000, 20_000, 512).unwrap();
    let row = last(&con, "Coruscant", "Kessel").unwrap().unwrap();
    assert_eq!(row.id, route_id);
    assert_eq!(get_route_by_from_to(&con, 1, 2).unwrap().unwrap().id, route_id);
    assert!(matches!(
        last(&con, "Coruscant", "Nowhere"),
        Err(ComputeError::PlanetNotFound { .. })
    ));
}

#[test]
fn alias_resolution_reaches_planets() {
    let con = test_db();
    insert_planet(&con, 1, "Coruscant", 0.0, 0.0);
    insert_planet(&con, 2, "Kessel", 10.0, 0.0);
    con.execute(
        "INSERT INTO planet_aliases(alias, alias_norm, planet_fid, source) VALUES ('Imperial Center', 'imperial center', 1, 'legends')",
        [],
    )
    .unwrap();

    let (route_id, _) =
        compute(&con, "Imperial Center", "Kessel", opts(), 6_000, 20_000, 512).expect("compute");
    let loaded = load_route(&con, route_id).unwrap().unwrap();
    assert_eq!(loaded.route.from_planet_fid, 1);
}

#[test]
fn prune_removes_only_orphan_computed_waypoints() {
    let con = test_db();
    insert_planet(&con, 1, "Coruscant", 0.0, 0.0);
    insert_planet(&con, 2, "Kessel", 10.0, 0.0);
    insert_planet(&con, 3, "Prakith", 5.0, 0.0);

    let (route_id, _) = compute(&con, "Coruscant", "Kessel", opts(), 6_000, 20_000, 512).unwrap();

    // a manual waypoint must never be pruned
    con.execute(
        "INSERT INTO waypoints(name, name_norm, x, y, kind) VALUES ('Rendezvous', 'rendezvous', 1, 2, 'manual')",
        [],
    )
    .unwrap();

    // while the route references its computed waypoints, nothing is orphan
    let rep = prune_waypoints(&con, false, false).unwrap();
    assert_eq!(rep.deleted, 0);

    // dropping the route orphans the computed waypoints, but they stay
    // linked to their obstacle planet, so safe mode keeps them
    con.execute("DELETE FROM route_waypoints WHERE route_id = ?1", [route_id])
        .unwrap();
    con.execute("DELETE FROM route_detours WHERE route_id = ?1", [route_id])
        .unwrap();
    let dry = prune_waypoints(&con, true, true).unwrap();
    assert!(dry.candidates.len() >= 1);
    assert_eq!(dry.deleted, 0);
    let safe = prune_waypoints(&con, false, false).unwrap();
    assert_eq!(safe.deleted, 0);

    // include-linked drops the links first and removes them
    let full = prune_waypoints(&con, true, false).unwrap();
    assert!(full.deleted >= 1);
    let manual_left: i64 = con
        .query_row(
            "SELECT COUNT(*) FROM waypoints WHERE kind = 'manual'",
            [],
            |r| r.get(0),
        )
        .unwrap();
    assert_eq!(manual_left, 1);
    let computed_left: i64 = con
        .query_row(
            "SELECT COUNT(*) FROM waypoints WHERE kind = 'computed'",
            [],
            |r| r.get(0),
        )
        .unwrap();
    assert_eq!(computed_left, 0);
}

#[test]
fn clear_removes_routes_and_children() {
    let con = test_db();
    insert_planet(&con, 1, "Coruscant", 0.0, 0.0);
    insert_planet(&con, 2, "Kessel", 10.0, 0.0);
    compute(&con, "Coruscant", "Kessel", opts(), 6_000, 20_000, 512).unwrap();
    clear_routes(&con).unwrap();
    let n: i64 = con
        .query_row("SELECT COUNT(*) FROM routes", [], |r| r.get(0))
        .unwrap();
    assert_eq!(n, 0);
    let nw: i64 = con
        .query_row("SELECT COUNT(*) FROM route_waypoints", [], |r| r.get(0))
        .unwrap();
    assert_eq!(nw, 0);
}

#[test]
fn explain_projection_totals_and_drivers() {
    let con = test_db();
    insert_planet(&con, 1, "Coruscant", 0.0, 0.0);
    insert_planet(&con, 2, "Kessel", 10.0, 0.0);
    insert_planet(&con, 3, "Prakith", 5.0, 0.0);

    let o = opts();
    let (route_id, _) = compute(&con, "Coruscant", "Kessel", o, 6_000, 20_000, 512).unwrap();
    let loaded = load_route(&con, route_id).unwrap().unwrap();
    let export = build_explain_export(&loaded, Some(&o)).expect("explain");

    assert_eq!(export.detours.len(), loaded.detours.len());
    assert_eq!(export.note_units, "parsec");
    assert!(export.note_text.contains("state at the time of route computation"));
    for (e, d) in export.detours.iter().zip(loaded.detours.iter()) {
        assert_eq!(e.required, d.obstacle_radius + o.clearance);
        assert_eq!(e.violated_by, e.required - d.closest_dist);
        // the straight segment was piercing the safety disc
        assert!(e.violated_by > 0);
        assert_eq!(
            e.score_total,
            d.score_base + d.score_turn + d.score_back + d.score_proximity
        );
        assert!(
            e.dominant_component == "turn"
                || e.dominant_component == "back"
                || e.dominant_component == "proximity"
        );
        assert!(e.decision_drivers.len() >= 2);
        assert!(e.decision_drivers[0].starts_with("constraint:"));
        assert!(e.decision_drivers.last().unwrap().starts_with("cost:"));
    }
}
