use sha2::Digest;
use sw_galaxy_map::fingerprint::{detour_fingerprint, fingerprint_text};
use sw_galaxy_map::geometry::Point;
use sw_galaxy_map::router::{CandidateScore, DetourDecision};

fn sample_decision() -> DetourDecision {
    DetourDecision {
        iteration: 0,
        segment_index: 0,
        obstacle_id: 3,
        obstacle_name: "Prakith".to_string(),
        obstacle_center: Point::new(50_000, 0),
        obstacle_radius: 6_000,
        closest_t: 5_000,
        closest_q: Point::new(50_000, 0),
        closest_dist: 0,
        offset_used: 6_300,
        waypoint: Point::new(12_345, -500),
        score: CandidateScore {
            base: 100_000,
            turn: 10,
            back: 0,
            proximity: 5,
        },
        tries_used: 1,
        tries_exhausted: false,
    }
}

#[test]
fn canonical_text_is_exact() {
    let text = fingerprint_text(1, 2, 3, 0, 0, 12_345, -500);
    assert_eq!(
        text,
        b"detour|from=1|to=2|ob=3|it=0|seg=0|x=1.2345|y=-0.0500".to_vec()
    );
}

#[test]
fn canonical_text_pads_four_decimals() {
    let text = fingerprint_text(-7, 10, 42, 3, 2, 100_000, 1);
    assert_eq!(
        text,
        b"detour|from=-7|to=10|ob=42|it=3|seg=2|x=10.0000|y=0.0001".to_vec()
    );
}

#[test]
fn fingerprint_matches_direct_digest() {
    let d = sample_decision();
    let fp = detour_fingerprint(1, 2, &d);
    let expected = hex::encode(sha2::Sha256::digest(
        b"detour|from=1|to=2|ob=3|it=0|seg=0|x=1.2345|y=-0.0500",
    ));
    assert_eq!(fp, expected);
    assert_eq!(fp.len(), 64);
}

#[test]
fn fingerprints_are_stable_across_calls() {
    let d1 = sample_decision();
    let d2 = sample_decision();
    assert_eq!(detour_fingerprint(9, 8, &d1), detour_fingerprint(9, 8, &d2));
    // a different context yields a different identity
    assert_ne!(detour_fingerprint(9, 8, &d1), detour_fingerprint(8, 9, &d1));
}
