use lidar_correction::{
    process_point, run_script, top_kernel, ControlUnit, Engine, LidarInput, LidarProcessor,
    Matrix3x3, State, Vector3,
};

const ONE: i32 = 65536;

fn rotation_z_90() -> Matrix3x3 {
    Matrix3x3 { rows: [[0, -ONE, 0], [ONE, 0, 0], [0, 0, ONE]] }
}

fn script(idle_cycles: usize, data: LidarInput, hold_cycles: usize) -> Vec<LidarInput> {
    let mut inputs = Vec::new();
    for _ in 0..idle_cycles {
        inputs.push(LidarInput::default());
    }
    inputs.push(LidarInput { valid: true, ..data });
    let hold = LidarInput { valid: false, ..data };
    for _ in 0..hold_cycles {
        inputs.push(hold);
    }
    inputs
}

#[test]
fn output_valid_on_exactly_the_third_cycle_after_the_pulse() {
    let data = LidarInput {
        valid: true,
        point: Vector3 { x: 10 * ONE, y: 0, z: 0 },
        rotation: rotation_z_90(),
        translation: Vector3 { x: 0, y: 0, z: 0 },
    };
    // Two idle cycles, the pulse at index 2, then ten hold cycles: the
    // output must assert at index 5 (the third cycle after the pulse)
    // and never anywhere else.
    let outs = run_script(&script(2, data, 10));
    assert_eq!(outs.len(), 13);
    for (i, out) in outs.iter().enumerate() {
        assert_eq!(out.valid, i == 5, "output_valid wrong at cycle {}", i);
    }
}

#[test]
fn rotation_then_translation_on_the_output_cycle() {
    let data = LidarInput {
        valid: true,
        point: Vector3 { x: 10 * ONE, y: 0, z: 0 },
        rotation: rotation_z_90(),
        translation: Vector3 { x: ONE, y: 2 * ONE, z: 3 * ONE },
    };
    let outs = run_script(&script(1, data, 5));
    let valid: Vec<_> = outs.iter().filter(|o| o.valid).collect();
    assert_eq!(valid.len(), 1);
    assert_eq!(
        valid[0].corrected_point,
        Vector3 { x: ONE, y: 12 * ONE, z: 3 * ONE }
    );
}

#[test]
fn identical_scripts_produce_identical_output_sequences() {
    let data = LidarInput {
        valid: true,
        point: Vector3 { x: 7 * ONE, y: -3 * ONE, z: ONE },
        rotation: rotation_z_90(),
        translation: Vector3 { x: 11, y: -22, z: 33 },
    };
    let inputs = script(3, data, 8);
    let first = run_script(&inputs);
    let second = run_script(&inputs);
    assert_eq!(first, second);
}

#[test]
fn pulse_while_busy_is_ignored_not_queued() {
    let data = LidarInput {
        valid: true,
        point: Vector3 { x: 5 * ONE, y: 0, z: 0 },
        rotation: rotation_z_90(),
        translation: Vector3 { x: 0, y: 0, z: 0 },
    };
    // A second pulse arrives while the machine is mid-transaction; it must
    // not start a second transaction, so exactly one output appears.
    let mut inputs = script(1, data, 2);
    inputs.push(LidarInput { valid: true, ..data });
    let hold = LidarInput { valid: false, ..data };
    for _ in 0..4 {
        inputs.push(hold);
    }
    let outs = run_script(&inputs);
    let valid_count = outs.iter().filter(|o| o.valid).count();
    assert_eq!(valid_count, 1);
}

#[test]
fn end_to_end_rotation_of_ten_on_x() {
    // Point (10, 0, 0), zero translation, 90 degrees about Z: the
    // corrected point comes back as (0, 10, 0) within one thousandth.
    let point = Vector3 { x: 10 * ONE, y: 0, z: 0 };
    let translation = Vector3 { x: 0, y: 0, z: 0 };
    let corrected = process_point(point, rotation_z_90(), translation, 10)
        .expect("transaction must complete within the budget");
    let x = corrected.x as f64 / 65536.0;
    let y = corrected.y as f64 / 65536.0;
    assert!(x.abs() <= 0.001);
    assert!((y - 10.0).abs() <= 0.001);
    assert_eq!(corrected.z, 0);
}

#[test]
fn insufficient_hold_budget_reports_no_output() {
    let point = Vector3 { x: ONE, y: 0, z: 0 };
    let translation = Vector3 { x: 0, y: 0, z: 0 };
    assert_eq!(process_point(point, rotation_z_90(), translation, 2), None);
    assert!(process_point(point, rotation_z_90(), translation, 3).is_some());
}

#[test]
fn reset_returns_the_machine_to_idle_with_cleared_registers() {
    let data = LidarInput {
        valid: true,
        point: Vector3 { x: ONE, y: ONE, z: ONE },
        rotation: rotation_z_90(),
        translation: Vector3 { x: ONE, y: 0, z: 0 },
    };
    let mut p = LidarProcessor::default();
    // Step the machine into the middle of a transaction.
    let (_, p1) = top_kernel(data, p);
    let hold = LidarInput { valid: false, ..data };
    let (_, p2) = top_kernel(hold, p1);
    p = p2;
    assert_ne!(p.cu.state, State::Idle);
    p.reset();
    assert_eq!(p.cu, ControlUnit::default());
    assert_eq!(p.engine, Engine::default());
}
