use lidar_correction::{clamp_to_fixed, fixed_add, fixed_mul, matrix_vector_mult, vector_add, Matrix3x3, Vector3};

const ONE: i32 = 65536; // 1.0 in Q16.16

#[test]
fn fixed_mul_exact_products() {
    // 2.0 * 3.0 == 6.0
    assert_eq!(fixed_mul(2 * ONE, 3 * ONE), 6 * ONE);
    // -1.5 * 2.0 == -3.0
    assert_eq!(fixed_mul(-98304, 2 * ONE), -196608);
    // 0.5 * 0.5 == 0.25
    assert_eq!(fixed_mul(ONE / 2, ONE / 2), ONE / 4);
    assert_eq!(fixed_mul(0, 12345), 0);
}

#[test]
fn fixed_mul_truncates_toward_negative_infinity() {
    // The smallest positive tick squared is below resolution: truncates to 0.
    assert_eq!(fixed_mul(1, 1), 0);
    // An arithmetic shift floors negative values: -1 tick * 1 tick -> -1 tick.
    assert_eq!(fixed_mul(-1, 1), -1);
}

#[test]
fn fixed_mul_wraps_silently_on_overflow() {
    // The widened product shifted right by 16 exceeds 32 bits; the
    // narrowing keeps only the low 32, two's complement.
    assert_eq!(fixed_mul(i32::MAX, i32::MAX), -65536);
}

#[test]
fn fixed_add_wraps_on_overflow() {
    assert_eq!(fixed_add(i32::MAX, 1), i32::MIN);
    assert_eq!(fixed_add(i32::MIN, -1), i32::MAX);
    assert_eq!(fixed_add(3 * ONE, -ONE), 2 * ONE);
}

#[test]
fn vector_add_componentwise() {
    let a = Vector3 { x: ONE, y: -2 * ONE, z: 3 * ONE };
    let b = Vector3 { x: 10 * ONE, y: 20 * ONE, z: -30 * ONE };
    let r = vector_add(a, b);
    assert_eq!(r, Vector3 { x: 11 * ONE, y: 18 * ONE, z: -27 * ONE });
}

#[test]
fn matrix_vector_mult_identity() {
    let m = Matrix3x3 { rows: [[ONE, 0, 0], [0, ONE, 0], [0, 0, ONE]] };
    let v = Vector3 { x: 123456, y: -654321, z: 42 };
    assert_eq!(matrix_vector_mult(m, v), v);
}

#[test]
fn matrix_vector_mult_rotation_z_90() {
    // 90 degrees about Z: (10, 0, 0) -> (0, 10, 0), exactly in fixed point.
    let m = Matrix3x3 { rows: [[0, -ONE, 0], [ONE, 0, 0], [0, 0, ONE]] };
    let v = Vector3 { x: 10 * ONE, y: 0, z: 0 };
    let r = matrix_vector_mult(m, v);
    assert_eq!(r, Vector3 { x: 0, y: 10 * ONE, z: 0 });
}

#[test]
fn clamp_passes_values_in_range() {
    assert_eq!(clamp_to_fixed(12345), (12345, false));
    assert_eq!(clamp_to_fixed(-12345), (-12345, false));
    assert_eq!(clamp_to_fixed(i32::MAX as i64), (i32::MAX, false));
    assert_eq!(clamp_to_fixed(i32::MIN as i64), (i32::MIN, false));
}

#[test]
fn clamp_saturates_and_reports() {
    assert_eq!(clamp_to_fixed(i32::MAX as i64 + 1), (i32::MAX, true));
    assert_eq!(clamp_to_fixed(i32::MIN as i64 - 1), (i32::MIN, true));
    assert_eq!(clamp_to_fixed(i64::MAX), (i32::MAX, true));
    assert_eq!(clamp_to_fixed(i64::MIN), (i32::MIN, true));
}

#[test]
fn float_round_trip_within_resolution() {
    // Converting a representable value to Q16.16 and back moves it by at
    // most one tick, 2^-16.
    let tick = 1.0f64 / 65536.0;
    for &v in &[0.0f64, 10.5, -3.25, 0.0001, -0.0001, 1234.5678, -32000.9] {
        let scaled = (v * 65536.0) as i64;
        let (fixed, saturated) = clamp_to_fixed(scaled);
        assert!(!saturated);
        let back = fixed as f64 / 65536.0;
        assert!((back - v).abs() <= tick, "round trip moved {} to {}", v, back);
    }
}
