//! Motion correction for LiDAR point clouds: a fixed-point correction
//! processor modelled as a synchronous state machine, together with the
//! pose-trajectory index and interpolation logic that feeds it.

use vstd::prelude::*;

mod alu;
mod control_unit;
mod driver;
mod engine;
mod lut;
mod scan;
mod trajectory;
mod types;

pub use alu::{
    clamp_to_fixed, fixed_add, fixed_mul, fixed_wrap, matrix_vector_mult, spec_dot_row,
    spec_fixed_add, spec_fixed_mul, spec_matrix_vector_mult, spec_vector_add, vector_add, Fixed32,
};
pub use control_unit::{
    cu_kernel, spec_control_signals, spec_next_state, ControlSignals, ControlUnit, State,
};
pub use driver::{
    lemma_fsm_timing, lemma_run_deterministic, process_point, run_script, spec_corrected,
    spec_run_outputs, spec_state_after,
};
pub use engine::{
    engine_kernel, spec_engine_next, spec_engine_output, spec_engine_reset, Engine,
};
pub use lut::{
    generate_pose_lut, interpolate_pose, spec_has_ts, spec_last_with_ts, spec_sorted_strict,
    Interpolation, Pose, PoseLut,
};
pub use scan::{
    select_scan_window, spec_holds_index, spec_in_scan, spec_sync_start, spec_window_cutoff,
    SCAN_DURATION_NS,
};
pub use trajectory::{
    lemma_steps_strictly_increasing, spec_steps, trajectory_steps, TrajectoryStep,
};
pub use types::{LidarInput, LidarOutput, Matrix3x3, Vector3};

verus! {

/// The full correction processor: the control unit wired to the engine.
///
/// The control unit's strobes are computed combinationally from its current
/// state and fed to the engine within the same cycle; both components'
/// registers then update on the same clock edge.
#[derive(Clone, Copy, PartialEq, Eq, Debug)]
pub struct LidarProcessor {
    pub cu: ControlUnit,
    pub engine: Engine,
}

/// The processor state at the start of a transaction: `Idle`, with all
/// datapath registers cleared.
pub open spec fn spec_processor_reset() -> LidarProcessor {
    LidarProcessor { cu: ControlUnit { state: State::Idle }, engine: spec_engine_reset() }
}

impl Default for LidarProcessor {
    fn default() -> (r: Self)
        ensures
            r == spec_processor_reset(),
    {
        LidarProcessor { cu: ControlUnit { state: State::Idle }, engine: Engine::default() }
    }
}

impl LidarProcessor {
    /// Return the machine to `Idle` with cleared registers, abandoning any
    /// transaction in flight: an explicit reset, distinct from construction,
    /// so one instance can serve successive points.
    pub fn reset(&mut self)
        ensures
            *final(self) == spec_processor_reset(),
    {
        *self = LidarProcessor::default();
    }
}

/// The output bus this cycle: the engine's output under the strobes of the
/// control unit's current state.
pub open spec fn spec_top_output(input: LidarInput, q: LidarProcessor) -> LidarOutput {
    spec_engine_output(spec_control_signals(q.cu.state), q.engine)
}

/// The whole processor's registers after one clock edge.
pub open spec fn spec_top_next(input: LidarInput, q: LidarProcessor) -> LidarProcessor {
    LidarProcessor {
        cu: ControlUnit { state: spec_next_state(q.cu.state, input.valid) },
        engine: spec_engine_next(input, spec_control_signals(q.cu.state), q.engine),
    }
}

/// One clock cycle of the whole processor: wire the `valid` strobe into the
/// control unit, its strobes into the engine, and present the engine's
/// output. Advancing a cycle is a pure function of registers and inputs.
pub fn top_kernel(input: LidarInput, q: LidarProcessor) -> (r: (LidarOutput, LidarProcessor))
    ensures
        r.0 == spec_top_output(input, q),
        r.1 == spec_top_next(input, q),
{
    let (cs, cu_next) = cu_kernel(input.valid, q.cu);
    let (out, engine_next) = engine_kernel((input, cs), q.engine);
    (out, LidarProcessor { cu: cu_next, engine: engine_next })
}

} // verus!
