//! Register-level data types of the correction processor.

use vstd::prelude::*;
use crate::alu::Fixed32;

verus! {

/// A three-component vector of Q16.16 scalars.
#[derive(Clone, Copy, PartialEq, Eq, Structural, Debug)]
pub struct Vector3 {
    pub x: Fixed32,
    pub y: Fixed32,
    pub z: Fixed32,
}

impl Default for Vector3 {
    fn default() -> (r: Self)
        ensures
            r == (Vector3 { x: 0, y: 0, z: 0 }),
    {
        Vector3 { x: 0, y: 0, z: 0 }
    }
}

/// A 3x3 matrix of Q16.16 scalars, stored row-major.
#[derive(Clone, Copy, PartialEq, Eq, Debug)]
pub struct Matrix3x3 {
    pub rows: [[Fixed32; 3]; 3],
}

impl Default for Matrix3x3 {
    fn default() -> (r: Self)
        ensures
            r == (Matrix3x3 { rows: [[0, 0, 0], [0, 0, 0], [0, 0, 0]] }),
    {
        Matrix3x3 { rows: [[0, 0, 0], [0, 0, 0], [0, 0, 0]] }
    }
}

/// The input bus of the processor: a `valid` strobe plus the point to
/// correct, the rotation matrix and the translation vector.
#[derive(Clone, Copy, PartialEq, Eq, Debug)]
pub struct LidarInput {
    pub valid: bool,
    pub point: Vector3,
    pub rotation: Matrix3x3,
    pub translation: Vector3,
}

impl Default for LidarInput {
    fn default() -> (r: Self)
        ensures
            r == (LidarInput {
                valid: false,
                point: Vector3 { x: 0, y: 0, z: 0 },
                rotation: Matrix3x3 { rows: [[0, 0, 0], [0, 0, 0], [0, 0, 0]] },
                translation: Vector3 { x: 0, y: 0, z: 0 },
            }),
    {
        LidarInput {
            valid: false,
            point: Vector3 { x: 0, y: 0, z: 0 },
            rotation: Matrix3x3 { rows: [[0, 0, 0], [0, 0, 0], [0, 0, 0]] },
            translation: Vector3 { x: 0, y: 0, z: 0 },
        }
    }
}

/// The output bus: a `valid` strobe plus the corrected point, meaningful
/// only on the single cycle where `valid` is asserted.
#[derive(Clone, Copy, PartialEq, Eq, Structural, Debug)]
pub struct LidarOutput {
    pub valid: bool,
    pub corrected_point: Vector3,
}

} // verus!
