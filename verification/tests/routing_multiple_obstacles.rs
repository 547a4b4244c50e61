use sw_galaxy_map::collision::{first_collision_on_segment, Obstacle};
use sw_galaxy_map::geometry::Point;
use sw_galaxy_map::router::{compute_route, Route, RouteOptions};

fn assert_polyline_collision_free(route: &Route, obstacles: &Vec<Obstacle>) {
    for w in route.waypoints.windows(2) {
        let a = w[0];
        let b = w[1];
        let hit = first_collision_on_segment(a, b, obstacles);
        assert!(
            hit.is_none(),
            "collision left in route on segment A={:?} B={:?}",
            a,
            b
        );
    }
}

fn axis_pair() -> Vec<Obstacle> {
    vec![
        Obstacle {
            id: 1,
            name: "Prakith".to_string(),
            center: Point::new(40_000, 0),
            radius: 6_000,
        },
        Obstacle {
            id: 2,
            name: "Keeara Major".to_string(),
            center: Point::new(80_000, 0),
            radius: 6_000,
        },
    ]
}

#[test]
fn route_with_multiple_obstacles_is_safe() {
    let start = Point::new(0, 0);
    let end = Point::new(120_000, 0);

    let obstacles = axis_pair();

    let opts = RouteOptions {
        clearance: 250,
        max_iters: 10,
        ..Default::default()
    };

    let route = compute_route(start, end, &obstacles, opts).expect("route computation failed");

    assert!(route.waypoints.len() >= 3);
    assert!(route.iterations > 0);

    assert_polyline_collision_free(&route, &obstacles);

    // Basic monotonicity: start and end preserved
    assert_eq!(route.waypoints.first().copied(), Some(start));
    assert_eq!(route.waypoints.last().copied(), Some(end));
}

#[test]
fn earlier_obstacle_is_detoured_first() {
    let start = Point::new(0, 0);
    let end = Point::new(120_000, 0);
    let obstacles = axis_pair();
    let opts = RouteOptions {
        clearance: 250,
        max_iters: 10,
        ..Default::default()
    };

    let route = compute_route(start, end, &obstacles, opts).expect("route computation failed");

    // a valid detour candidate must already clear the whole obstacle set,
    // so the first (smaller t) obstacle drives the one decision taken
    assert!(route.iterations >= 1);
    assert_eq!(route.detours[0].obstacle_id, 1);
    assert_eq!(route.detours[0].iteration, 0);
}

#[test]
fn identical_inputs_give_identical_routes() {
    let start = Point::new(0, 0);
    let end = Point::new(120_000, 0);
    let obstacles = axis_pair();
    let opts = RouteOptions {
        clearance: 250,
        max_iters: 10,
        ..Default::default()
    };

    let r1 = compute_route(start, end, &obstacles, opts).expect("route computation failed");
    let r2 = compute_route(start, end, &obstacles, opts).expect("route computation failed");

    assert_eq!(r1.waypoints, r2.waypoints);
    assert_eq!(r1.length, r2.length);
    assert_eq!(r1.iterations, r2.iterations);
    assert_eq!(r1.detours.len(), r2.detours.len());
    for (a, b) in r1.detours.iter().zip(r2.detours.iter()) {
        assert_eq!(a.iteration, b.iteration);
        assert_eq!(a.segment_index, b.segment_index);
        assert_eq!(a.obstacle_id, b.obstacle_id);
        assert_eq!(a.obstacle_name, b.obstacle_name);
        assert_eq!(a.obstacle_center, b.obstacle_center);
        assert_eq!(a.obstacle_radius, b.obstacle_radius);
        assert_eq!(a.closest_t, b.closest_t);
        assert_eq!(a.closest_q, b.closest_q);
        assert_eq!(a.closest_dist, b.closest_dist);
        assert_eq!(a.offset_used, b.offset_used);
        assert_eq!(a.waypoint, b.waypoint);
        assert_eq!(a.score, b.score);
        assert_eq!(a.tries_used, b.tries_used);
        assert_eq!(a.tries_exhausted, b.tries_exhausted);
    }
}
