//! The timing skeleton of dead-reckoning integration: which inertial
//! samples are accepted, and the time step each accepted sample
//! contributes.
//!
//! Timestamp deltas use saturating subtraction, so a duplicate or
//! regressed timestamp yields a zero delta and is skipped without
//! advancing the baseline; integration never fails, whatever samples it
//! is given. The numeric state updates driven by these steps operate on
//! the accepted timestamps and deltas alone.

use vstd::prelude::*;

verus! {

/// One accepted integration step: the accepted sample's timestamp, and
/// the nanoseconds elapsed since the previously accepted sample (or since
/// the very first sample, for the first accepted step).
#[derive(Clone, Copy, PartialEq, Eq, Structural, Debug)]
pub struct TrajectoryStep {
    pub timestamp_ns: u64,
    pub dt_ns: u64,
}

/// The steps integration takes over the samples `ts`, with `prev` the
/// baseline timestamp: a sample at or before the baseline has a zero
/// saturating delta and is skipped; a later sample is accepted and
/// becomes the new baseline.
pub open spec fn spec_steps(ts: Seq<u64>, prev: u64) -> Seq<TrajectoryStep>
    decreases ts.len(),
{
    if ts.len() == 0 {
        Seq::empty()
    } else if ts[0] <= prev {
        spec_steps(ts.drop_first(), prev)
    } else {
        seq![
            TrajectoryStep { timestamp_ns: ts[0], dt_ns: (ts[0] - prev) as u64 },
        ] + spec_steps(ts.drop_first(), ts[0])
    }
}

/// Every accepted step lies strictly after the baseline, timestamps
/// strictly increase along the trajectory, and each step's delta spans
/// exactly the gap back to the step before it (or to the baseline, for
/// the first step): the invariant the pose index is built on.
pub proof fn lemma_steps_strictly_increasing(ts: Seq<u64>, prev: u64)
    ensures
        forall|k: int|
            0 <= k < spec_steps(ts, prev).len() ==> #[trigger] spec_steps(ts, prev)[k].timestamp_ns
                > prev,
        forall|k: int, l: int|
            0 <= k < l < spec_steps(ts, prev).len() ==> spec_steps(ts, prev)[k].timestamp_ns
                < spec_steps(ts, prev)[l].timestamp_ns,
        spec_steps(ts, prev).len() > 0 ==> spec_steps(ts, prev)[0].dt_ns == spec_steps(
            ts,
            prev,
        )[0].timestamp_ns - prev,
        forall|k: int|
            1 <= k < spec_steps(ts, prev).len() ==> #[trigger] spec_steps(ts, prev)[k].dt_ns
                == spec_steps(ts, prev)[k].timestamp_ns - spec_steps(ts, prev)[k
                - 1].timestamp_ns,
    decreases ts.len(),
{
    if ts.len() == 0 {
    } else if ts[0] <= prev {
        lemma_steps_strictly_increasing(ts.drop_first(), prev);
    } else {
        lemma_steps_strictly_increasing(ts.drop_first(), ts[0]);
        let head = TrajectoryStep { timestamp_ns: ts[0], dt_ns: (ts[0] - prev) as u64 };
        let rest = spec_steps(ts.drop_first(), ts[0]);
        let whole = spec_steps(ts, prev);
        assert(whole =~= seq![head] + rest);
        assert(whole[0] == head);
        assert forall|k: int| 1 <= k < whole.len() implies whole[k] == rest[k - 1] by {}
    }
}

/// Walk the sample timestamps in order and emit one step per accepted
/// sample, exactly as the integration loop advances: the first sample is
/// the initial baseline (so it is itself skipped), and zero-delta samples
/// merge into their predecessor.
pub fn trajectory_steps(timestamps: &Vec<u64>) -> (steps: Vec<TrajectoryStep>)
    ensures
        timestamps@.len() == 0 ==> steps@ == Seq::<TrajectoryStep>::empty(),
        timestamps@.len() > 0 ==> steps@ == spec_steps(timestamps@, timestamps@[0]),
{
    let mut steps: Vec<TrajectoryStep> = Vec::new();
    if timestamps.len() == 0 {
        return steps;
    }
    let mut prev: u64 = timestamps[0];
    let mut i: usize = 0;
    proof {
        assert(timestamps@.skip(0) =~= timestamps@);
        assert(Seq::<TrajectoryStep>::empty() + spec_steps(timestamps@, timestamps@[0])
            =~= spec_steps(timestamps@, timestamps@[0]));
    }
    while i < timestamps.len()
        invariant
            0 < timestamps@.len(),
            i <= timestamps@.len(),
            spec_steps(timestamps@, timestamps@[0]) == steps@ + spec_steps(
                timestamps@.skip(i as int),
                prev,
            ),
        decreases timestamps@.len() - i,
    {
        let t = timestamps[i];
        proof {
            assert(timestamps@.skip(i as int)[0] == timestamps@[i as int]);
            assert(timestamps@.skip(i as int).drop_first() =~= timestamps@.skip(i as int + 1));
        }
        if t > prev {
            let step = TrajectoryStep { timestamp_ns: t, dt_ns: t - prev };
            proof {
                assert(steps@ + spec_steps(timestamps@.skip(i as int), prev) =~= steps@.push(step)
                    + spec_steps(timestamps@.skip(i as int + 1), t));
            }
            steps.push(step);
            prev = t;
        }
        i = i + 1;
    }
    proof {
        assert(timestamps@.skip(timestamps@.len() as int) =~= Seq::<u64>::empty());
        assert(steps@ + Seq::<TrajectoryStep>::empty() =~= steps@);
    }
    steps
}

} // verus!
