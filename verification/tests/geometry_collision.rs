use sw_galaxy_map::collision::{
    closest_point_on_segment, first_collision_on_segment, interior_collision_on_segment,
    is_segment_safe, proximity_penalty_for_segment, Obstacle,
};
use sw_galaxy_map::geometry::{clamp, dist, norm, normalize, perp, Point};

#[test]
fn norms_and_distances_are_exact() {
    // a 3-4-5 triangle in parsec units
    assert_eq!(norm(Point::new(30_000, 40_000)), 50_000);
    assert_eq!(dist(Point::new(0, 0), Point::new(100_000, 0)), 100_000);
    assert_eq!(dist(Point::new(10, 10), Point::new(10, 10)), 0);
    // non-square roots round down
    assert_eq!(norm(Point::new(2, 0)), 2);
    assert_eq!(norm(Point::new(1, 1)), 1);
}

#[test]
fn unit_vectors_are_fixed_point() {
    let u = normalize(Point::new(30_000, 40_000));
    assert_eq!(u, Point::new(6_000, 8_000));
    assert_eq!(normalize(Point::new(0, 0)), Point::new(0, 0));
    let n = perp(Point::new(6_000, 8_000));
    assert_eq!(n, Point::new(-8_000, 6_000));
    assert_eq!(clamp(15_000, -10_000, 10_000), 10_000);
    assert_eq!(clamp(-15_000, -10_000, 10_000), -10_000);
    assert_eq!(clamp(5, -10_000, 10_000), 5);
}

#[test]
fn closest_point_record_is_exact() {
    // P above the midpoint of a horizontal segment
    let cp = closest_point_on_segment(
        Point::new(50_000, 50_000),
        Point::new(0, 0),
        Point::new(100_000, 0),
    );
    assert_eq!(cp.t, 5_000);
    assert_eq!(cp.q, Point::new(50_000, 0));
    assert_eq!(cp.dist, 50_000);

    // P beyond the far endpoint clamps to t = 1
    let cp2 = closest_point_on_segment(
        Point::new(150_000, 0),
        Point::new(0, 0),
        Point::new(100_000, 0),
    );
    assert_eq!(cp2.t, 10_000);
    assert_eq!(cp2.q, Point::new(100_000, 0));
    assert_eq!(cp2.dist, 50_000);

    // a degenerate segment puts everything at its single point
    let cp3 = closest_point_on_segment(
        Point::new(10, 10),
        Point::new(4, 0),
        Point::new(4, 0),
    );
    assert_eq!(cp3.t, 0);
    assert_eq!(cp3.q, Point::new(4, 0));
}

#[test]
fn interior_collisions_exclude_endpoints() {
    let a = Point::new(0, 0);
    let b = Point::new(100_000, 0);
    let mid = Obstacle {
        id: 1,
        name: "mid".to_string(),
        center: Point::new(50_000, 0),
        radius: 6_000,
    };
    let at_end = Obstacle {
        id: 2,
        name: "end".to_string(),
        center: b,
        radius: 20_000,
    };
    assert!(interior_collision_on_segment(a, b, &mid));
    assert!(!interior_collision_on_segment(a, b, &at_end));
    assert!(!is_segment_safe(a, b, &vec![mid.clone(), at_end.clone()]));
    assert!(is_segment_safe(a, b, &vec![at_end.clone()]));

    let hit = first_collision_on_segment(a, b, &vec![at_end, mid]).expect("one interior hit");
    assert_eq!(hit.obstacle_id, 1);
    assert_eq!(hit.closest.t, 5_000);
    assert_eq!(hit.closest.dist, 0);
}

#[test]
fn first_collision_prefers_smaller_t() {
    let a = Point::new(0, 0);
    let b = Point::new(120_000, 0);
    let late = Obstacle {
        id: 9,
        name: "late".to_string(),
        center: Point::new(80_000, 0),
        radius: 6_000,
    };
    let early = Obstacle {
        id: 3,
        name: "early".to_string(),
        center: Point::new(40_000, 0),
        radius: 6_000,
    };
    let hit = first_collision_on_segment(a, b, &vec![late, early]).expect("hit");
    assert_eq!(hit.obstacle_id, 3);
}

#[test]
fn proximity_penalty_has_exact_ramp() {
    let a = Point::new(0, 0);
    let b = Point::new(100_000, 0);
    // closest distance 0.8, radius 0.6, margin 0.5: x = (1.1 - 0.8) / 0.5
    let near_band = vec![Obstacle {
        id: 1,
        name: "near".to_string(),
        center: Point::new(50_000, 8_000),
        radius: 6_000,
    }];
    // x = 6000 fixed point; weight * x^2 = 15000 * 3600 / 10000
    assert_eq!(
        proximity_penalty_for_segment(a, b, &near_band, 5_000, 15_000),
        5_400
    );
    // outside the warning band: no contribution
    let far = vec![Obstacle {
        id: 1,
        name: "far".to_string(),
        center: Point::new(50_000, 20_000),
        radius: 6_000,
    }];
    assert_eq!(proximity_penalty_for_segment(a, b, &far, 5_000, 15_000), 0);
    // disabled band or weight: zero
    assert_eq!(proximity_penalty_for_segment(a, b, &near_band, 0, 15_000), 0);
    assert_eq!(proximity_penalty_for_segment(a, b, &near_band, 5_000, 0), 0);
    // inside the disc: the strong deterrent of ten times the weight
    let piercing = vec![Obstacle {
        id: 1,
        name: "close".to_string(),
        center: Point::new(50_000, 1_000),
        radius: 6_000,
    }];
    assert_eq!(
        proximity_penalty_for_segment(a, b, &piercing, 5_000, 15_000),
        150_000
    );
}
