//! The control unit: a four-state synchronous machine that sequences one
//! correction transaction and gates the datapath through three strobes.

use vstd::prelude::*;

verus! {

/// The control strobes derived combinationally from the current state.
/// They gate which datapath value is latched or deemed meaningful on this
/// cycle; they are never stored.
#[derive(Clone, Copy, PartialEq, Eq, Structural, Debug)]
pub struct ControlSignals {
    /// Capture the input bus into the holding registers on this edge.
    pub load_input: bool,
    /// Latch the rotation product into the intermediate register on this edge.
    pub save_temp: bool,
    /// The corrected point on the output bus is meaningful on this cycle.
    pub output_valid: bool,
}

impl Default for ControlSignals {
    fn default() -> (r: Self)
        ensures
            r == (ControlSignals { load_input: false, save_temp: false, output_valid: false }),
    {
        ControlSignals { load_input: false, save_temp: false, output_valid: false }
    }
}

/// The states of the transaction sequencer. A fresh or reset machine is
/// `Idle`; one accepted `valid` pulse walks it through `Load`, `CalcRot`
/// and `CalcTrans` and back to `Idle`, one state per cycle.
#[derive(Clone, Copy, PartialEq, Eq, Structural, Debug)]
pub enum State {
    /// Awaiting a `valid` pulse from the host.
    Idle,
    /// Capturing the input bus into the holding registers.
    Load,
    /// Computing the rotation and saving it into the intermediate register.
    CalcRot,
    /// Computing the translation combinationally and emitting the output.
    CalcTrans,
}

impl Default for State {
    fn default() -> (r: Self)
        ensures
            r == State::Idle,
    {
        State::Idle
    }
}

/// The control unit's single register: its current state.
#[derive(Clone, Copy, PartialEq, Eq, Structural, Debug)]
pub struct ControlUnit {
    pub state: State,
}

impl Default for ControlUnit {
    fn default() -> (r: Self)
        ensures
            r == (ControlUnit { state: State::Idle }),
    {
        ControlUnit { state: State::Idle }
    }
}

/// The strobes asserted while the machine sits in a given state.
pub open spec fn spec_control_signals(s: State) -> ControlSignals {
    match s {
        State::Idle => ControlSignals { load_input: false, save_temp: false, output_valid: false },
        State::Load => ControlSignals { load_input: true, save_temp: false, output_valid: false },
        State::CalcRot => ControlSignals {
            load_input: false,
            save_temp: true,
            output_valid: false,
        },
        State::CalcTrans => ControlSignals {
            load_input: false,
            save_temp: false,
            output_valid: true,
        },
    }
}

/// The state taken on the next clock edge. A `valid` pulse is recognized
/// only in `Idle`; elsewhere it is ignored, not queued.
pub open spec fn spec_next_state(s: State, valid_in: bool) -> State {
    match s {
        State::Idle => if valid_in {
            State::Load
        } else {
            State::Idle
        },
        State::Load => State::CalcRot,
        State::CalcRot => State::CalcTrans,
        State::CalcTrans => State::Idle,
    }
}

/// One cycle of the control unit: emit the strobes of the current state
/// and step to the next state. A total match over all four states.
pub fn cu_kernel(valid_in: bool, q: ControlUnit) -> (r: (ControlSignals, ControlUnit))
    ensures
        r.0 == spec_control_signals(q.state),
        r.1.state == spec_next_state(q.state, valid_in),
{
    let mut cs = ControlSignals { load_input: false, save_temp: false, output_valid: false };
    let mut next_state = q.state;

    match q.state {
        State::Idle => {
            if valid_in {
                next_state = State::Load;
            }
        },
        State::Load => {
            cs.load_input = true;
            next_state = State::CalcRot;
        },
        State::CalcRot => {
            cs.save_temp = true;
            next_state = State::CalcTrans;
        },
        State::CalcTrans => {
            cs.output_valid = true;
            next_state = State::Idle;
        },
    }

    (cs, ControlUnit { state: next_state })
}

} // verus!
