use lidar_correction::{select_scan_window, trajectory_steps, TrajectoryStep};

#[test]
fn integration_accepts_strictly_advancing_samples() {
    let ts = vec![100u64, 200, 350, 600];
    let steps = trajectory_steps(&ts);
    assert_eq!(
        steps,
        vec![
            TrajectoryStep { timestamp_ns: 200, dt_ns: 100 },
            TrajectoryStep { timestamp_ns: 350, dt_ns: 150 },
            TrajectoryStep { timestamp_ns: 600, dt_ns: 250 },
        ]
    );
}

#[test]
fn duplicate_timestamps_merge_into_their_predecessor() {
    let ts = vec![100u64, 200, 200, 200, 300];
    let steps = trajectory_steps(&ts);
    assert_eq!(
        steps,
        vec![
            TrajectoryStep { timestamp_ns: 200, dt_ns: 100 },
            TrajectoryStep { timestamp_ns: 300, dt_ns: 100 },
        ]
    );
}

#[test]
fn regressed_timestamps_are_skipped_like_duplicates() {
    // A regressed timestamp yields a zero saturating delta: skipped, and
    // the baseline stays where it was.
    let ts = vec![100u64, 50, 200];
    let steps = trajectory_steps(&ts);
    assert_eq!(steps, vec![TrajectoryStep { timestamp_ns: 200, dt_ns: 100 }]);
}

#[test]
fn first_sample_is_the_baseline_and_emits_no_step() {
    assert_eq!(trajectory_steps(&vec![777u64]), Vec::<TrajectoryStep>::new());
    assert_eq!(trajectory_steps(&Vec::new()), Vec::<TrajectoryStep>::new());
}

#[test]
fn scan_window_opens_at_the_first_record_past_the_start() {
    let ts = vec![10u64, 20, 30];
    // Start at 15: record 0 is skipped, the window opens at 20 and the
    // remaining records fall well inside the 100 ms cutoff.
    assert_eq!(select_scan_window(&ts, 15), vec![1, 2]);
}

#[test]
fn scan_window_ends_at_the_first_record_past_the_cutoff() {
    let ts = vec![0u64, 50_000_000, 100_000_000, 100_000_001, 200_000_000];
    // The window opens at 0 and admits capture times up to 100 ms
    // inclusive; the first record beyond it ends the scan.
    assert_eq!(select_scan_window(&ts, 0), vec![0, 1, 2]);
}

#[test]
fn records_before_the_start_are_skipped_wherever_they_appear() {
    let ts = vec![10u64, 5, 20];
    assert_eq!(select_scan_window(&ts, 10), vec![0, 2]);
}

#[test]
fn no_record_reaches_the_start() {
    let ts = vec![1u64, 2, 3];
    assert_eq!(select_scan_window(&ts, 100), Vec::<usize>::new());
}
