//! The engine: the correction datapath's holding registers and the
//! combinational arithmetic around them.
//!
//! Every cycle the datapath computes both the rotation product (from the
//! point and rotation registers) and the translation sum (from the
//! intermediate and translation registers); the control strobes only gate
//! which computed value is latched or presented, never whether the
//! arithmetic runs. All four registers update together on the clock edge.

use vstd::prelude::*;
use crate::alu::{matrix_vector_mult, spec_matrix_vector_mult, spec_vector_add, vector_add};
use crate::control_unit::ControlSignals;
use crate::types::{LidarInput, LidarOutput, Matrix3x3, Vector3};

verus! {

/// The datapath registers: the captured point, rotation and translation,
/// and the intermediate register holding the rotated point.
#[derive(Clone, Copy, PartialEq, Eq, Debug)]
pub struct Engine {
    pub point: Vector3,
    pub rotation: Matrix3x3,
    pub translation: Vector3,
    pub temp_rotated: Vector3,
}

impl Default for Engine {
    fn default() -> (r: Self)
        ensures
            r == spec_engine_reset(),
    {
        Engine {
            point: Vector3 { x: 0, y: 0, z: 0 },
            rotation: Matrix3x3 { rows: [[0, 0, 0], [0, 0, 0], [0, 0, 0]] },
            translation: Vector3 { x: 0, y: 0, z: 0 },
            temp_rotated: Vector3 { x: 0, y: 0, z: 0 },
        }
    }
}

/// The zeroed register state the engine starts a transaction from.
pub open spec fn spec_engine_reset() -> Engine {
    Engine {
        point: Vector3 { x: 0, y: 0, z: 0 },
        rotation: Matrix3x3 { rows: [[0, 0, 0], [0, 0, 0], [0, 0, 0]] },
        translation: Vector3 { x: 0, y: 0, z: 0 },
        temp_rotated: Vector3 { x: 0, y: 0, z: 0 },
    }
}

/// The registers after one clock edge: capture the input bus when
/// `load_input` strobes, latch the rotation product when `save_temp`
/// strobes, hold otherwise.
pub open spec fn spec_engine_next(data_in: LidarInput, cs: ControlSignals, q: Engine) -> Engine {
    Engine {
        point: if cs.load_input {
            data_in.point
        } else {
            q.point
        },
        rotation: if cs.load_input {
            data_in.rotation
        } else {
            q.rotation
        },
        translation: if cs.load_input {
            data_in.translation
        } else {
            q.translation
        },
        temp_rotated: if cs.save_temp {
            spec_matrix_vector_mult(q.rotation, q.point)
        } else {
            q.temp_rotated
        },
    }
}

/// The output bus this cycle: the translation sum of the current
/// registers, flagged valid exactly when `output_valid` strobes.
pub open spec fn spec_engine_output(cs: ControlSignals, q: Engine) -> LidarOutput {
    LidarOutput {
        valid: cs.output_valid,
        corrected_point: spec_vector_add(q.temp_rotated, q.translation),
    }
}

/// One cycle of the datapath: compute both arithmetic stages from the
/// current registers, then update all registers synchronously as the
/// strobes direct.
pub fn engine_kernel(input: (LidarInput, ControlSignals), q: Engine) -> (r: (LidarOutput, Engine))
    ensures
        r.0 == spec_engine_output(input.1, q),
        r.1 == spec_engine_next(input.0, input.1, q),
{
    let (data_in, cs) = input;

    let current_rotation_res = matrix_vector_mult(q.rotation, q.point);
    let final_res = vector_add(q.temp_rotated, q.translation);

    let mut next_point = q.point;
    let mut next_rotation = q.rotation;
    let mut next_translation = q.translation;
    let mut next_temp = q.temp_rotated;

    if cs.load_input {
        next_point = data_in.point;
        next_rotation = data_in.rotation;
        next_translation = data_in.translation;
    }

    if cs.save_temp {
        next_temp = current_rotation_res;
    }

    let output = LidarOutput { valid: cs.output_valid, corrected_point: final_res };

    (
        output,
        Engine {
            point: next_point,
            rotation: next_rotation,
            translation: next_translation,
            temp_rotated: next_temp,
        },
    )
}

} // verus!
