//! The pose index: an ordered, queryable store of the trajectory, built
//! once, and the temporal resolution of arbitrary query times against it.
//!
//! The index orders poses by capture time alone; the pose payload itself
//! (orientation and position) is an opaque value that the index carries
//! through unchanged, so every claim below holds bit-for-bit of whatever
//! payload type the caller stores.

use vstd::prelude::*;

verus! {

/// A timestamped pose: the capture time in nanoseconds plus the payload
/// the index was asked to store under it.
#[derive(Clone, Copy, PartialEq, Eq, Debug)]
pub struct Pose<P> {
    pub timestamp_ns: u64,
    pub payload: P,
}

/// Timestamps strictly increase along the sequence: the defining shape of
/// a built index, and of every trajectory the integrator emits.
pub open spec fn spec_sorted_strict<P>(s: Seq<Pose<P>>) -> bool {
    forall|i: int, j: int|
        0 <= i < j < s.len() ==> s[i].timestamp_ns < s[j].timestamp_ns
}

/// Some entry of `s` carries timestamp `t`.
pub open spec fn spec_has_ts<P>(s: Seq<Pose<P>>, t: u64) -> bool {
    exists|i: int| 0 <= i < s.len() && s[i].timestamp_ns == t
}

/// The last entry of `s` carrying timestamp `t`: the write that wins when
/// duplicate timestamps are inserted in order.
pub open spec fn spec_last_with_ts<P>(s: Seq<Pose<P>>, t: u64) -> Pose<P>
    decreases s.len(),
{
    if s.len() == 0 {
        arbitrary()
    } else if s.last().timestamp_ns == t {
        s.last()
    } else {
        spec_last_with_ts(s.drop_last(), t)
    }
}

proof fn lemma_last_with_ts_push<P>(s: Seq<Pose<P>>, p: Pose<P>, t: u64)
    ensures
        spec_last_with_ts(s.push(p), t) == (if p.timestamp_ns == t {
            p
        } else {
            spec_last_with_ts(s, t)
        }),
{
    assert(s.push(p).last() == p);
    assert(s.push(p).drop_last() =~= s);
}

/// An ordered mapping from capture time to pose, keys unique and strictly
/// increasing, built once from a trajectory and read-only afterwards.
pub struct PoseLut<P> {
    entries: Vec<Pose<P>>,
}

impl<P> View for PoseLut<P> {
    type V = Seq<Pose<P>>;

    closed spec fn view(&self) -> Seq<Pose<P>> {
        self.entries@
    }
}

impl<P: Copy> PoseLut<P> {
    /// Keys are unique and strictly increasing.
    pub open spec fn wf(&self) -> bool {
        spec_sorted_strict(self@)
    }

    /// The number of poses held.
    pub fn len(&self) -> (n: usize)
        ensures
            n == self@.len(),
    {
        self.entries.len()
    }

    /// The index of the greatest key at or below `query_ts`: the floor
    /// query, O(log n).
    fn floor_index(&self, query_ts: u64) -> (r: Option<usize>)
        requires
            self.wf(),
        ensures
            match r {
                Some(i) => 0 <= i < self@.len() && self@[i as int].timestamp_ns <= query_ts
                    && (forall|j: int|
                    i < j < self@.len() ==> self@[j].timestamp_ns > query_ts),
                None => forall|j: int| 0 <= j < self@.len() ==> self@[j].timestamp_ns > query_ts,
            },
    {
        if self.entries.len() == 0 {
            return None;
        }
        if self.entries[0].timestamp_ns > query_ts {
            return None;
        }
        let mut lo: usize = 0;
        let mut hi: usize = self.entries.len() - 1;
        while lo < hi
            invariant
                self.wf(),
                0 <= lo <= hi < self@.len(),
                self@[lo as int].timestamp_ns <= query_ts,
                forall|j: int| hi < j < self@.len() ==> self@[j].timestamp_ns > query_ts,
            decreases hi - lo,
        {
            let mid = hi - (hi - lo) / 2;
            if self.entries[mid].timestamp_ns <= query_ts {
                lo = mid;
            } else {
                hi = mid - 1;
            }
        }
        Some(lo)
    }
}

/// Build the pose index from a trajectory ordered by capture time:
/// each pose is inserted keyed by its timestamp, and a later entry with an
/// equal timestamp overwrites the earlier one — last write wins.
pub fn generate_pose_lut<P: Copy>(trajectory: &Vec<Pose<P>>) -> (lut: PoseLut<P>)
    requires
        forall|i: int, j: int|
            0 <= i < j < trajectory@.len() ==> trajectory@[i].timestamp_ns
                <= trajectory@[j].timestamp_ns,
    ensures
        lut.wf(),
        forall|t: u64| spec_has_ts(lut@, t) <==> spec_has_ts(trajectory@, t),
        forall|k: int|
            0 <= k < lut@.len() ==> lut@[k] == spec_last_with_ts(
                trajectory@,
                lut@[k].timestamp_ns,
            ),
{
    let ghost traj = trajectory@;
    let mut entries: Vec<Pose<P>> = Vec::new();
    let mut i: usize = 0;
    while i < trajectory.len()
        invariant
            i <= traj.len(),
            traj == trajectory@,
            forall|a: int, b: int|
                0 <= a < b < traj.len() ==> traj[a].timestamp_ns <= traj[b].timestamp_ns,
            spec_sorted_strict(entries@),
            forall|t: u64| spec_has_ts(entries@, t) <==> spec_has_ts(traj.take(i as int), t),
            forall|k: int|
                0 <= k < entries@.len() ==> entries@[k] == spec_last_with_ts(
                    traj.take(i as int),
                    entries@[k].timestamp_ns,
                ),
            i > 0 ==> entries@.len() > 0 && entries@.last().timestamp_ns == traj[i as int
                - 1].timestamp_ns,
        decreases trajectory.len() - i,
    {
        let p = trajectory[i];
        let ghost prefix = traj.take(i as int);
        proof {
            assert(traj.take(i as int + 1) =~= prefix.push(p));
            assert forall|t: u64| true implies spec_last_with_ts(prefix.push(p), t) == (
            if p.timestamp_ns == t {
                p
            } else {
                spec_last_with_ts(prefix, t)
            }) by {
                lemma_last_with_ts_push(prefix, p, t);
            }
        }
        if entries.len() > 0 && entries[entries.len() - 1].timestamp_ns == p.timestamp_ns {
            let ghost before = entries@;
            entries.pop();
            entries.push(p);
            proof {
                assert(entries@ =~= before.drop_last().push(p));
                assert forall|a: int, b: int|
                    0 <= a < b < entries@.len() implies entries@[a].timestamp_ns
                    < entries@[b].timestamp_ns by {
                    if b < entries@.len() - 1 {
                        assert(before[a].timestamp_ns < before[b].timestamp_ns);
                    } else {
                        assert(before[a].timestamp_ns < before[before.len() - 1].timestamp_ns);
                    }
                }
                assert forall|t: u64| spec_has_ts(entries@, t) implies spec_has_ts(
                    prefix.push(p),
                    t,
                ) by {
                    let w = choose|w: int|
                        0 <= w < entries@.len() && entries@[w].timestamp_ns == t;
                    if w < entries@.len() - 1 {
                        assert(before[w].timestamp_ns == t);
                        assert(spec_has_ts(before, t));
                        assert(spec_has_ts(prefix, t));
                        let v = choose|v: int|
                            0 <= v < prefix.len() && prefix[v].timestamp_ns == t;
                        assert(prefix.push(p)[v].timestamp_ns == t);
                    } else {
                        assert(prefix.push(p)[prefix.len() as int].timestamp_ns == t);
                    }
                }
                assert forall|t: u64| spec_has_ts(prefix.push(p), t) implies spec_has_ts(
                    entries@,
                    t,
                ) by {
                    let w = choose|w: int|
                        0 <= w < prefix.push(p).len() && prefix.push(p)[w].timestamp_ns == t;
                    if w < prefix.len() {
                        assert(prefix[w].timestamp_ns == t);
                        assert(spec_has_ts(prefix, t));
                        assert(spec_has_ts(before, t));
                        let v = choose|v: int|
                            0 <= v < before.len() && before[v].timestamp_ns == t;
                        if v < before.len() - 1 {
                            assert(entries@[v].timestamp_ns == t);
                        } else {
                            assert(entries@[entries@.len() - 1].timestamp_ns == t);
                        }
                    } else {
                        assert(entries@[entries@.len() - 1].timestamp_ns == t);
                    }
                }
            }
        } else {
            let ghost before = entries@;
            entries.push(p);
            proof {
                assert(entries@ =~= before.push(p));
                if before.len() > 0 {
                    if i == 0 {
                        assert(spec_has_ts(before, before[0].timestamp_ns));
                        assert(false);
                    }
                    assert(traj[i as int - 1].timestamp_ns <= p.timestamp_ns);
                    assert(before[before.len() - 1].timestamp_ns < p.timestamp_ns);
                }
                assert forall|a: int, b: int|
                    0 <= a < b < entries@.len() implies entries@[a].timestamp_ns
                    < entries@[b].timestamp_ns by {
                    if b < entries@.len() - 1 {
                        assert(before[a].timestamp_ns < before[b].timestamp_ns);
                    } else {
                        if a < before.len() - 1 {
                            assert(before[a].timestamp_ns < before[before.len()
                                - 1].timestamp_ns);
                        }
                        assert(before[a].timestamp_ns < p.timestamp_ns);
                    }
                }
                assert forall|t: u64| spec_has_ts(entries@, t) implies spec_has_ts(
                    prefix.push(p),
                    t,
                ) by {
                    let w = choose|w: int|
                        0 <= w < entries@.len() && entries@[w].timestamp_ns == t;
                    if w < entries@.len() - 1 {
                        assert(before[w].timestamp_ns == t);
                        assert(spec_has_ts(before, t));
                        assert(spec_has_ts(prefix, t));
                        let v = choose|v: int|
                            0 <= v < prefix.len() && prefix[v].timestamp_ns == t;
                        assert(prefix.push(p)[v].timestamp_ns == t);
                    } else {
                        assert(prefix.push(p)[prefix.len() as int].timestamp_ns == t);
                    }
                }
                assert forall|t: u64| spec_has_ts(prefix.push(p), t) implies spec_has_ts(
                    entries@,
                    t,
                ) by {
                    let w = choose|w: int|
                        0 <= w < prefix.push(p).len() && prefix.push(p)[w].timestamp_ns == t;
                    if w < prefix.len() {
                        assert(prefix[w].timestamp_ns == t);
                        assert(spec_has_ts(prefix, t));
                        assert(spec_has_ts(before, t));
                        let v = choose|v: int|
                            0 <= v < before.len() && before[v].timestamp_ns == t;
                        assert(entries@[v].timestamp_ns == t);
                    } else {
                        assert(entries@[entries@.len() - 1].timestamp_ns == t);
                    }
                }
            }
        }
        i = i + 1;
    }
    proof {
        assert(traj.take(traj.len() as int) =~= traj);
    }
    PoseLut { entries }
}

/// A strictly sorted sequence holds no entry at `q` when the floor entry
/// for `q` sits strictly below it.
proof fn lemma_floor_no_exact<P>(s: Seq<Pose<P>>, q: u64, i: int)
    requires
        spec_sorted_strict(s),
        0 <= i < s.len(),
        s[i].timestamp_ns < q,
        forall|j: int| i < j < s.len() ==> s[j].timestamp_ns > q,
    ensures
        !spec_has_ts(s, q),
{
    if spec_has_ts(s, q) {
        let w = choose|w: int| 0 <= w < s.len() && s[w].timestamp_ns == q;
        if w < i {
            assert(s[w].timestamp_ns < s[i].timestamp_ns);
        }
        assert(false);
    }
}

/// What a query time resolves to against the index.
#[derive(Clone, Copy, PartialEq, Eq, Debug)]
pub enum Interpolation<P> {
    /// The query hit a stored key: that pose, unchanged.
    Exact(Pose<P>),
    /// The query fell before the first key or beyond the last: the nearest
    /// stored pose, unchanged, keeping its own timestamp.
    Boundary(Pose<P>),
    /// The query fell strictly between two adjacent keys: the pair to
    /// interpolate between, together with the query time.
    Blend { lower: Pose<P>, upper: Pose<P>, query_ts: u64 },
}

/// Resolve a query time against the index: an exact hit returns the stored
/// pose bit-identically; a time outside the covered range holds the nearest
/// boundary pose; a time strictly inside resolves to the unique pair of
/// adjacent keys that bracket it; an empty index resolves to nothing.
#[verifier::rlimit(60)]
pub fn interpolate_pose<P: Copy>(lut: &PoseLut<P>, query_ts: u64) -> (r: Option<Interpolation<P>>)
    requires
        lut.wf(),
    ensures
        r is None <==> lut@.len() == 0,
        spec_has_ts(lut@, query_ts) ==> exists|i: int|
            0 <= i < lut@.len() && lut@[i].timestamp_ns == query_ts && r == Some(
                Interpolation::Exact(lut@[i]),
            ),
        lut@.len() > 0 && query_ts < lut@[0].timestamp_ns ==> r == Some(
            Interpolation::Boundary(lut@[0]),
        ),
        lut@.len() > 0 && query_ts > lut@[lut@.len() - 1].timestamp_ns ==> r == Some(
            Interpolation::Boundary(lut@[lut@.len() - 1]),
        ),
        lut@.len() > 0 && lut@[0].timestamp_ns <= query_ts <= lut@[lut@.len() - 1].timestamp_ns
            && !spec_has_ts(lut@, query_ts) ==> exists|i: int|
            0 <= i < lut@.len() - 1 && #[trigger] lut@[i].timestamp_ns < query_ts < lut@[i
                + 1].timestamp_ns && r == Some(
                Interpolation::Blend { lower: lut@[i], upper: lut@[i + 1], query_ts: query_ts },
            ),
{
    let n = lut.len();
    match lut.floor_index(query_ts) {
        None => {
            if n == 0 {
                None
            } else {
                Some(Interpolation::Boundary(lut.entries[0]))
            }
        },
        Some(i) => {
            let p1 = lut.entries[i];
            proof {
                if i > 0 {
                    assert(lut@[0].timestamp_ns < lut@[i as int].timestamp_ns);
                }
                assert(lut@[0].timestamp_ns <= query_ts);
            }
            if p1.timestamp_ns == query_ts {
                proof {
                    assert(lut@[i as int].timestamp_ns == query_ts);
                }
                Some(Interpolation::Exact(p1))
            } else if i == n - 1 {
                proof {
                    assert(lut@[i as int].timestamp_ns < query_ts);
                    lemma_floor_no_exact(lut@, query_ts, i as int);
                }
                Some(Interpolation::Boundary(p1))
            } else {
                let p2 = lut.entries[i + 1];
                proof {
                    assert(lut@[i as int].timestamp_ns < query_ts);
                    assert(lut@[i as int + 1].timestamp_ns > query_ts);
                    if i as int + 1 < lut@.len() - 1 {
                        assert(lut@[i as int + 1].timestamp_ns < lut@[lut@.len()
                            - 1].timestamp_ns);
                    }
                    lemma_floor_no_exact(lut@, query_ts, i as int);
                }
                Some(Interpolation::Blend { lower: p1, upper: p2, query_ts: query_ts })
            }
        },
    }
}

} // verus!
