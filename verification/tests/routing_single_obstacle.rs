use sw_galaxy_map::collision::{first_collision_on_segment, Obstacle};
use sw_galaxy_map::geometry::Point;
use sw_galaxy_map::router::{compute_route, Route, RouteOptions};

fn assert_route_collision_free(route: &Route, obstacles: &Vec<Obstacle>) {
    for w in route.waypoints.windows(2) {
        let a = w[0];
        let b = w[1];
        let hit = first_collision_on_segment(a, b, obstacles);
        assert!(
            hit.is_none(),
            "collision left in route on segment A={:?} B={:?}",
            a,
            b
        );
    }
}

#[test]
fn route_with_single_obstacle_creates_detour() {
    let start = Point::new(0, 0);
    let end = Point::new(100_000, 0);

    let obstacles = vec![Obstacle {
        id: 1,
        name: "Prakith".to_string(),
        center: Point::new(50_000, 0),
        radius: 6_000,
    }];

    let opts = RouteOptions {
        clearance: 300,
        ..Default::default()
    };

    let route = compute_route(start, end, &obstacles, opts).expect("route computation failed");

    // start -> W -> end
    assert!(route.waypoints.len() >= 3);

    assert_route_collision_free(&route, &obstacles);

    // sanity: no waypoint equals the obstacle center
    for w in &route.waypoints {
        assert_ne!(*w, obstacles[0].center);
    }
}

#[test]
fn single_obstacle_detour_telemetry() {
    let start = Point::new(0, 0);
    let end = Point::new(100_000, 0);
    let obstacles = vec![Obstacle {
        id: 1,
        name: "Prakith".to_string(),
        center: Point::new(50_000, 0),
        radius: 6_000,
    }];
    let opts = RouteOptions {
        clearance: 300,
        ..Default::default()
    };

    let route = compute_route(start, end, &obstacles, opts).expect("route computation failed");

    assert_eq!(route.detours.len(), route.iterations);
    assert_eq!(route.detours.len(), 1);
    let d = &route.detours[0];
    assert_eq!(d.obstacle_id, 1);
    assert_eq!(d.obstacle_name, "Prakith");
    assert_eq!(d.segment_index, 0);
    assert!(d.tries_used >= 1 && d.tries_used <= opts.max_offset_tries);
    assert_eq!(d.tries_exhausted, d.tries_used == opts.max_offset_tries);
    // the recorded score total is the exact sum of its parts
    assert_eq!(
        d.score.total(),
        d.score.base + d.score.turn + d.score.back + d.score.proximity
    );
}

#[test]
fn no_detour_when_obstacle_swallows_both_endpoints() {
    // every candidate segment from A stays within the giant disc's interior
    let start = Point::new(0, 0);
    let end = Point::new(100_000, 0);
    let obstacles = vec![Obstacle {
        id: 1,
        name: "Maw Cluster".to_string(),
        center: Point::new(50_000, 0),
        radius: 55_000,
    }];
    let opts = RouteOptions {
        clearance: 300,
        max_offset_tries: 4,
        ..Default::default()
    };

    let got = compute_route(start, end, &obstacles, opts);
    match got {
        Err(sw_galaxy_map::router::RouteError::NoDetour {
            obstacle_id,
            segment_index,
        }) => {
            assert_eq!(obstacle_id, 1);
            assert_eq!(segment_index, 0);
        }
        other => panic!("expected a no-detour failure, got {:?}", other),
    }
}

#[test]
fn invalid_options_are_rejected() {
    let start = Point::new(0, 0);
    let end = Point::new(100_000, 0);
    let zero_tries = RouteOptions {
        max_offset_tries: 0,
        ..Default::default()
    };
    assert!(matches!(
        compute_route(start, end, &vec![], zero_tries),
        Err(sw_galaxy_map::router::RouteError::InvalidOptions)
    ));
    let flat_growth = RouteOptions {
        offset_growth: 10_000,
        ..Default::default()
    };
    assert!(matches!(
        compute_route(start, end, &vec![], flat_growth),
        Err(sw_galaxy_map::router::RouteError::InvalidOptions)
    ));
}

#[test]
fn max_iters_exhaustion_fails() {
    let start = Point::new(0, 0);
    let end = Point::new(120_000, 0);
    let obstacles = vec![
        Obstacle {
            id: 1,
            name: "Prakith".to_string(),
            center: Point::new(40_000, 0),
            radius: 6_000,
        },
        Obstacle {
            id: 2,
            name: "Keeara Major".to_string(),
            center: Point::new(80_000, 0),
            radius: 6_000,
        },
    ];
    let opts = RouteOptions {
        clearance: 250,
        max_iters: 1,
        ..Default::default()
    };
    assert!(matches!(
        compute_route(start, end, &obstacles, opts),
        Err(sw_galaxy_map::router::RouteError::MaxItersExceeded)
    ));
}
