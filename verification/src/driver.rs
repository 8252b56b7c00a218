//! Driving the processor through cycle scripts: running a whole input
//! stream, and the bounded per-point transaction protocol.

use vstd::prelude::*;
use crate::alu::{spec_matrix_vector_mult, spec_vector_add};
use crate::control_unit::State;
use crate::types::{LidarInput, LidarOutput, Matrix3x3, Vector3};
use crate::{spec_processor_reset, spec_top_next, spec_top_output, top_kernel, LidarProcessor};

verus! {

/// The processor's registers after feeding it each input of `inputs` in
/// turn, one per cycle, starting from `q`.
pub open spec fn spec_state_after(q: LidarProcessor, inputs: Seq<LidarInput>) -> LidarProcessor
    decreases inputs.len(),
{
    if inputs.len() == 0 {
        q
    } else {
        spec_state_after(spec_top_next(inputs[0], q), inputs.drop_first())
    }
}

/// The output-bus value of each cycle while feeding `inputs` to the
/// processor, one per cycle, starting from `q`.
pub open spec fn spec_run_outputs(q: LidarProcessor, inputs: Seq<LidarInput>) -> Seq<LidarOutput>
    decreases inputs.len(),
{
    if inputs.len() == 0 {
        Seq::empty()
    } else {
        seq![spec_top_output(inputs[0], q)] + spec_run_outputs(
            spec_top_next(inputs[0], q),
            inputs.drop_first(),
        )
    }
}

/// Extending a script by one input appends one output, computed from the
/// state the earlier inputs left behind.
proof fn lemma_run_snoc(q: LidarProcessor, inputs: Seq<LidarInput>, x: LidarInput)
    ensures
        spec_state_after(q, inputs.push(x)) == spec_top_next(x, spec_state_after(q, inputs)),
        spec_run_outputs(q, inputs.push(x)) =~= spec_run_outputs(q, inputs).push(
            spec_top_output(x, spec_state_after(q, inputs)),
        ),
    decreases inputs.len(),
{
    if inputs.len() == 0 {
        assert(inputs.push(x)[0] == x);
        assert(inputs.push(x).drop_first() =~= Seq::<LidarInput>::empty());
        assert(spec_state_after(q, inputs) == q);
        assert(spec_run_outputs(q, inputs) =~= Seq::<LidarOutput>::empty());
        let qn = spec_top_next(x, q);
        assert(spec_state_after(qn, Seq::<LidarInput>::empty()) == qn);
        assert(spec_run_outputs(qn, Seq::<LidarInput>::empty()).len() == 0);
        assert(spec_run_outputs(q, inputs.push(x)) =~= seq![spec_top_output(x, q)]);
        assert(spec_run_outputs(q, inputs).push(spec_top_output(x, q)) =~= seq![
            spec_top_output(x, q),
        ]);
    } else {
        assert(inputs.push(x)[0] == inputs[0]);
        assert(inputs.push(x).drop_first() =~= inputs.drop_first().push(x));
        let qn = spec_top_next(inputs[0], q);
        lemma_run_snoc(qn, inputs.drop_first(), x);
        assert(spec_run_outputs(q, inputs.push(x)) =~= spec_run_outputs(q, inputs).push(
            spec_top_output(x, spec_state_after(q, inputs)),
        ));
    }
}

/// Each output of a run is the output of one cycle, computed from the
/// state that the inputs before it produced.
proof fn lemma_run_output_at(q: LidarProcessor, inputs: Seq<LidarInput>, i: int)
    requires
        0 <= i < inputs.len(),
    ensures
        spec_run_outputs(q, inputs).len() == inputs.len(),
        spec_run_outputs(q, inputs)[i] == spec_top_output(
            inputs[i],
            spec_state_after(q, inputs.take(i)),
        ),
    decreases inputs.len(),
{
    lemma_run_len(q, inputs);
    if i == 0 {
        assert(inputs.take(0) =~= Seq::<LidarInput>::empty());
    } else {
        let qn = spec_top_next(inputs[0], q);
        lemma_run_output_at(qn, inputs.drop_first(), i - 1);
        assert(inputs.drop_first().take(i - 1) =~= inputs.take(i).drop_first());
        assert(spec_state_after(q, inputs.take(i)) == spec_state_after(
            qn,
            inputs.take(i).drop_first(),
        ));
    }
}

/// A run produces exactly one output per input cycle.
proof fn lemma_run_len(q: LidarProcessor, inputs: Seq<LidarInput>)
    ensures
        spec_run_outputs(q, inputs).len() == inputs.len(),
    decreases inputs.len(),
{
    if inputs.len() > 0 {
        lemma_run_len(spec_top_next(inputs[0], q), inputs.drop_first());
    }
}

/// Feed a script of cycle inputs to a freshly reset processor, one input
/// per clock cycle, and collect the output bus of every cycle.
pub fn run_script(inputs: &Vec<LidarInput>) -> (outs: Vec<LidarOutput>)
    ensures
        outs@ == spec_run_outputs(spec_processor_reset(), inputs@),
{
    let mut p = LidarProcessor::default();
    let mut outs: Vec<LidarOutput> = Vec::new();
    let mut i: usize = 0;
    while i < inputs.len()
        invariant
            i <= inputs.len(),
            p == spec_state_after(spec_processor_reset(), inputs@.take(i as int)),
            outs@ == spec_run_outputs(spec_processor_reset(), inputs@.take(i as int)),
        decreases inputs.len() - i,
    {
        let input = inputs[i];
        let (out, pn) = top_kernel(input, p);
        proof {
            assert(inputs@.take(i as int + 1) =~= inputs@.take(i as int).push(inputs@[i as int]));
            lemma_run_snoc(spec_processor_reset(), inputs@.take(i as int), inputs@[i as int]);
        }
        p = pn;
        outs.push(out);
        i = i + 1;
    }
    proof {
        assert(inputs@.take(inputs@.len() as int) =~= inputs@);
    }
    outs
}

/// Timing law of the state machine: from reset, one `valid` pulse followed
/// only by hold cycles makes `output_valid` assert on exactly the third
/// cycle after the pulse, and on no other cycle of the run.
pub proof fn lemma_fsm_timing(inputs: Seq<LidarInput>)
    requires
        inputs.len() >= 4,
        inputs[0].valid,
        forall|i: int| 1 <= i < inputs.len() ==> !inputs[i].valid,
    ensures
        forall|i: int| 0 <= i < inputs.len() ==> (spec_run_outputs(
            spec_processor_reset(),
            inputs,
        )[i].valid <==> i == 3),
{
    let q0 = spec_processor_reset();
    assert forall|i: int| 0 <= i < inputs.len() implies (spec_run_outputs(q0, inputs)[i].valid
        <==> i == 3) by {
        lemma_run_output_at(q0, inputs, i);
        lemma_pulse_state(inputs, i);
    }
}

/// The state reached after each prefix of a pulse-then-hold script: `Load`,
/// `CalcRot` and `CalcTrans` on the three cycles after the pulse, `Idle`
/// before the pulse and ever after.
proof fn lemma_pulse_state(inputs: Seq<LidarInput>, i: int)
    requires
        0 <= i <= inputs.len(),
        inputs.len() >= 1,
        inputs[0].valid,
        forall|j: int| 1 <= j < inputs.len() ==> !inputs[j].valid,
    ensures
        spec_state_after(spec_processor_reset(), inputs.take(i)).cu.state == (if i == 1 {
            State::Load
        } else if i == 2 {
            State::CalcRot
        } else if i == 3 {
            State::CalcTrans
        } else {
            State::Idle
        }),
    decreases i,
{
    let q0 = spec_processor_reset();
    if i == 0 {
        assert(inputs.take(0) =~= Seq::<LidarInput>::empty());
    } else {
        lemma_pulse_state(inputs, i - 1);
        assert(inputs.take(i) =~= inputs.take(i - 1).push(inputs[i - 1]));
        lemma_run_snoc(q0, inputs.take(i - 1), inputs[i - 1]);
    }
}

/// Determinism law: the outputs of a run from a fresh processor are a
/// function of the cycle script alone, so two runs of identical scripts
/// produce identical output sequences.
pub proof fn lemma_run_deterministic(script_a: Seq<LidarInput>, script_b: Seq<LidarInput>)
    requires
        script_a == script_b,
    ensures
        spec_run_outputs(spec_processor_reset(), script_a) == spec_run_outputs(
            spec_processor_reset(),
            script_b,
        ),
{
}

/// The corrected point that one transaction computes for the given inputs:
/// the fixed-point rotation product followed by the translation sum.
pub open spec fn spec_corrected(point: Vector3, rotation: Matrix3x3, translation: Vector3) -> Vector3 {
    spec_vector_add(spec_matrix_vector_mult(rotation, point), translation)
}

/// Drive one point through a full transaction on a fresh processor: one
/// idle cycle, one cycle with `valid` asserted and the data on the input
/// bus, then hold cycles with the bus unchanged until `output_valid` is
/// observed or the hold budget runs out.
///
/// A budget of at least 3 hold cycles always yields the corrected point;
/// `None` (a processor fault in the surrounding error taxonomy) is
/// impossible with an adequate budget.
pub fn process_point(
    point: Vector3,
    rotation: Matrix3x3,
    translation: Vector3,
    max_hold_cycles: u64,
) -> (r: Option<Vector3>)
    ensures
        r matches Some(c) ==> c == spec_corrected(point, rotation, translation),
        max_hold_cycles >= 3 ==> r == Some(spec_corrected(point, rotation, translation)),
        max_hold_cycles < 3 ==> r is None,
{
    let fresh = LidarProcessor::default();
    let idle = LidarInput::default();
    let (_, settled) = top_kernel(idle, fresh);

    let pulse = LidarInput { valid: true, point: point, rotation: rotation, translation: translation };
    let (_, accepted) = top_kernel(pulse, settled);

    let hold = LidarInput { valid: false, point: point, rotation: rotation, translation: translation };
    let mut cur = accepted;
    let mut i: u64 = 0;
    while i < max_hold_cycles
        invariant
            0 <= i <= 2,
            i <= max_hold_cycles,
            hold == (LidarInput {
                valid: false,
                point: point,
                rotation: rotation,
                translation: translation,
            }),
            cur.cu.state == (if i == 0 {
                State::Load
            } else if i == 1 {
                State::CalcRot
            } else {
                State::CalcTrans
            }),
            i >= 1 ==> cur.engine.point == point && cur.engine.rotation == rotation
                && cur.engine.translation == translation,
            i == 2 ==> cur.engine.temp_rotated == spec_matrix_vector_mult(rotation, point),
        decreases max_hold_cycles - i,
    {
        let (out, next) = top_kernel(hold, cur);
        if out.valid {
            return Some(out.corrected_point);
        }
        cur = next;
        i = i + 1;
    }
    None
}

} // verus!
