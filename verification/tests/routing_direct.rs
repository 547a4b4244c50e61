use sw_galaxy_map::geometry::Point;
use sw_galaxy_map::router::{compute_route, RouteOptions};

#[test]
fn direct_route_without_obstacles() {
    let start = Point::new(0, 0);
    let end = Point::new(100_000, 0);

    let route =
        compute_route(start, end, &vec![], RouteOptions::default()).expect("route computation failed");

    assert_eq!(route.waypoints.len(), 2);
    assert_eq!(route.waypoints[0], start);
    assert_eq!(route.waypoints[1], end);
    assert!(route.length > 0);
}

#[test]
fn direct_route_exact_telemetry() {
    // ten parsecs on the x axis: length is exactly ten parsecs in units
    let start = Point::new(0, 0);
    let end = Point::new(100_000, 0);

    let route =
        compute_route(start, end, &vec![], RouteOptions::default()).expect("route computation failed");

    assert_eq!(route.length, 100_000);
    assert_eq!(route.iterations, 0);
    assert!(route.detours.is_empty());
}

#[test]
fn same_point_yields_single_waypoint() {
    let p = Point::new(30_000, 40_000);
    let route = compute_route(p, p, &vec![], RouteOptions::default()).expect("route computation failed");
    assert_eq!(route.waypoints.len(), 1);
    assert_eq!(route.waypoints[0], p);
    assert_eq!(route.length, 0);
    assert_eq!(route.iterations, 0);
    assert!(route.detours.is_empty());
}
