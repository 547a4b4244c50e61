use sw_galaxy_map::collision::{first_collision_on_segment, Obstacle};
use sw_galaxy_map::geometry::Point;
use sw_galaxy_map::router::{compute_route, RouteOptions};

#[test]
fn route_allows_destination_endpoint_collision() {
    let start = Point::new(0, 0);
    let end = Point::new(100_000, 0);

    // Obstacle exactly at destination. With endpoint-safe logic, this must not prevent routing.
    let obstacles = vec![Obstacle {
        id: 99,
        name: "Endor".to_string(),
        center: end,
        radius: 20_000,
    }];

    let route = compute_route(start, end, &obstacles, RouteOptions::default())
        .expect("route computation failed");

    // Must succeed and preserve endpoints
    assert_eq!(route.waypoints.first().copied(), Some(start));
    assert_eq!(route.waypoints.last().copied(), Some(end));

    // No "interior" collisions should remain
    for seg in route.waypoints.windows(2) {
        let a = seg[0];
        let b = seg[1];
        let hit = first_collision_on_segment(a, b, &obstacles);
        assert!(
            hit.is_none(),
            "Unexpected interior collision: {:?} on segment A={:?} B={:?}",
            hit,
            a,
            b
        );
    }
}

#[test]
fn obstacle_at_origin_does_not_prevent_departure() {
    let start = Point::new(0, 0);
    let end = Point::new(100_000, 0);
    let obstacles = vec![Obstacle {
        id: 7,
        name: "Byss".to_string(),
        center: start,
        radius: 15_000,
    }];

    let route = compute_route(start, end, &obstacles, RouteOptions::default())
        .expect("route computation failed");
    assert_eq!(route.waypoints.first().copied(), Some(start));
    assert_eq!(route.waypoints.last().copied(), Some(end));
    assert_eq!(route.iterations, 0);
}

#[test]
fn exhausted_tries_are_reported() {
    // With a single allowed try, a successful detour is found exactly on the
    // last try, and the explain drivers flag the offset limit.
    let start = Point::new(0, 0);
    let end = Point::new(100_000, 0);
    let obstacles = vec![Obstacle {
        id: 1,
        name: "Prakith".to_string(),
        center: Point::new(50_000, 0),
        radius: 6_000,
    }];
    let opts = RouteOptions {
        clearance: 300,
        max_offset_tries: 1,
        ..Default::default()
    };

    let route = compute_route(start, end, &obstacles, opts).expect("route computation failed");
    assert_eq!(route.detours.len(), 1);
    let d = &route.detours[0];
    assert_eq!(d.tries_used, 1);
    assert_eq!(d.tries_used, opts.max_offset_tries);
    assert!(d.tries_exhausted);

    // drivers derived from the stored row name the offset limit
    let row = sw_galaxy_map::model::RouteDetourRow {
        idx: 0,
        iteration: d.iteration as i64,
        segment_index: d.segment_index as i64,
        obstacle_id: d.obstacle_id,
        obstacle_name: d.obstacle_name.clone(),
        obstacle_x: d.obstacle_center.x,
        obstacle_y: d.obstacle_center.y,
        obstacle_radius: d.obstacle_radius,
        closest_t: d.closest_t,
        closest_qx: d.closest_q.x,
        closest_qy: d.closest_q.y,
        closest_dist: d.closest_dist,
        offset_used: d.offset_used,
        wp_x: d.waypoint.x,
        wp_y: d.waypoint.y,
        waypoint_id: None,
        score_base: d.score.base,
        score_turn: d.score.turn,
        score_back: d.score.back,
        score_proximity: d.score.proximity,
        score_total: d.score.total(),
        tries_used: Some(d.tries_used as i64),
        tries_exhausted: if d.tries_exhausted { 1 } else { 0 },
    };
    let drivers = sw_galaxy_map::explain::analyze_detour_drivers(&row, Some(&opts));
    assert!(drivers.iter().any(|l| l.starts_with("limit:")));
    assert!(drivers[0].starts_with("constraint:"));
}
