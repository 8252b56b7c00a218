use lidar_correction::{generate_pose_lut, interpolate_pose, Interpolation, Pose};

// A pose payload as the host would store it: orientation as a quaternion
// (w, x, y, z) and a position, all double precision.
type Payload = ([f64; 4], [f64; 3]);

fn pose(ts: u64, qw: f64, px: f64) -> Pose<Payload> {
    Pose { timestamp_ns: ts, payload: ([qw, 0.0, 0.0, 0.0], [px, 0.0, 0.0]) }
}

#[test]
fn exact_timestamp_returns_the_stored_pose_bit_identically() {
    let trajectory = vec![pose(100, 1.0, 1.5), pose(200, 0.9, 2.5), pose(300, 0.8, 3.5)];
    let lut = generate_pose_lut(&trajectory);
    match interpolate_pose(&lut, 200) {
        Some(Interpolation::Exact(p)) => {
            assert_eq!(p.timestamp_ns, 200);
            assert_eq!(p.payload.0[0].to_bits(), 0.9f64.to_bits());
            assert_eq!(p.payload.1[0].to_bits(), 2.5f64.to_bits());
        },
        other => panic!("expected an exact hit, got {:?}", other),
    }
}

#[test]
fn query_before_the_first_key_holds_the_first_pose() {
    let trajectory = vec![pose(100, 1.0, 1.5), pose(200, 0.9, 2.5)];
    let lut = generate_pose_lut(&trajectory);
    match interpolate_pose(&lut, 50) {
        Some(Interpolation::Boundary(p)) => {
            // The held pose keeps its own timestamp, not the query's.
            assert_eq!(p.timestamp_ns, 100);
            assert_eq!(p.payload.1[0], 1.5);
        },
        other => panic!("expected the first pose held, got {:?}", other),
    }
}

#[test]
fn query_after_the_last_key_holds_the_last_pose() {
    let trajectory = vec![pose(100, 1.0, 1.5), pose(200, 0.9, 2.5)];
    let lut = generate_pose_lut(&trajectory);
    match interpolate_pose(&lut, 999) {
        Some(Interpolation::Boundary(p)) => {
            assert_eq!(p.timestamp_ns, 200);
            assert_eq!(p.payload.1[0], 2.5);
        },
        other => panic!("expected the last pose held, got {:?}", other),
    }
}

#[test]
fn empty_index_returns_absence() {
    let trajectory: Vec<Pose<Payload>> = Vec::new();
    let lut = generate_pose_lut(&trajectory);
    assert!(interpolate_pose(&lut, 123).is_none());
}

#[test]
fn interior_query_resolves_to_the_bracketing_pair() {
    let trajectory = vec![pose(100, 1.0, 1.0), pose(200, 0.9, 3.0), pose(400, 0.8, 9.0)];
    let lut = generate_pose_lut(&trajectory);
    match interpolate_pose(&lut, 150) {
        Some(Interpolation::Blend { lower, upper, query_ts }) => {
            assert_eq!(lower.timestamp_ns, 100);
            assert_eq!(upper.timestamp_ns, 200);
            assert_eq!(query_ts, 150);
            // The linear blend the caller computes from this pair stays on
            // the segment between the two positions.
            let alpha = (query_ts - lower.timestamp_ns) as f64
                / (upper.timestamp_ns - lower.timestamp_ns) as f64;
            let p = lower.payload.1[0] + alpha * (upper.payload.1[0] - lower.payload.1[0]);
            assert!(lower.payload.1[0] <= p && p <= upper.payload.1[0]);
            assert_eq!(p, 2.0);
        },
        other => panic!("expected a blend, got {:?}", other),
    }
}

#[test]
fn interior_query_picks_adjacent_keys_not_the_extremes() {
    let trajectory = vec![pose(100, 1.0, 1.0), pose(200, 0.9, 3.0), pose(400, 0.8, 9.0)];
    let lut = generate_pose_lut(&trajectory);
    match interpolate_pose(&lut, 300) {
        Some(Interpolation::Blend { lower, upper, query_ts }) => {
            assert_eq!(lower.timestamp_ns, 200);
            assert_eq!(upper.timestamp_ns, 400);
            assert_eq!(query_ts, 300);
        },
        other => panic!("expected a blend, got {:?}", other),
    }
}

#[test]
fn duplicate_timestamps_overwrite_last_write_wins() {
    let trajectory = vec![pose(100, 1.0, 1.0), pose(200, 0.9, 3.0), pose(200, 0.7, 7.0)];
    let lut = generate_pose_lut(&trajectory);
    assert_eq!(lut.len(), 2);
    match interpolate_pose(&lut, 200) {
        Some(Interpolation::Exact(p)) => {
            assert_eq!(p.payload.0[0], 0.7);
            assert_eq!(p.payload.1[0], 7.0);
        },
        other => panic!("expected the overwriting pose, got {:?}", other),
    }
}

#[test]
fn single_pose_index_answers_every_query_with_that_pose() {
    let trajectory = vec![pose(500, 1.0, 4.0)];
    let lut = generate_pose_lut(&trajectory);
    match interpolate_pose(&lut, 100) {
        Some(Interpolation::Boundary(p)) => assert_eq!(p.timestamp_ns, 500),
        other => panic!("expected the only pose held, got {:?}", other),
    }
    match interpolate_pose(&lut, 500) {
        Some(Interpolation::Exact(p)) => assert_eq!(p.timestamp_ns, 500),
        other => panic!("expected an exact hit, got {:?}", other),
    }
    match interpolate_pose(&lut, 900) {
        Some(Interpolation::Boundary(p)) => assert_eq!(p.timestamp_ns, 500),
        other => panic!("expected the only pose held, got {:?}", other),
    }
}
