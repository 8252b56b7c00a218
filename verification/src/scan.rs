//! Selecting the records of one scan from a time-ordered point stream:
//! synchronization to the first record at or after a requested start, and
//! the bounded window that follows it.
//!
//! The walk is positional: records before the start time are passed over,
//! the first record at or after it opens the window, and the walk stops at
//! the first in-window candidate whose capture time exceeds the window
//! cutoff. Only record timestamps matter here; the caller keeps the
//! records themselves and takes the selected indices.

use vstd::prelude::*;

verus! {

/// Length of one scan window in nanoseconds (100 ms).
pub const SCAN_DURATION_NS: u64 = 100_000_000;

/// The synchronization start: the capture time of the first record at or
/// after `min`, walking in record order.
pub open spec fn spec_sync_start(ts: Seq<u64>, min: u64) -> Option<u64>
    decreases ts.len(),
{
    if ts.len() == 0 {
        None
    } else if ts[0] >= min {
        Some(ts[0])
    } else {
        spec_sync_start(ts.drop_first(), min)
    }
}

/// The greatest capture time admitted to the window opening at `start`,
/// saturating at the top of the timestamp range.
pub open spec fn spec_window_cutoff(start: u64) -> u64 {
    if start + SCAN_DURATION_NS > u64::MAX {
        u64::MAX
    } else {
        (start + SCAN_DURATION_NS) as u64
    }
}

/// Record `i` belongs to the scan: it is at or after the requested start,
/// and no candidate up to and including it exceeds the cutoff — the walk
/// stops at the first candidate that does.
pub open spec fn spec_in_scan(ts: Seq<u64>, min: u64, cutoff: u64, i: int) -> bool {
    &&& 0 <= i < ts.len()
    &&& ts[i] >= min
    &&& forall|j: int| 0 <= j <= i && #[trigger] ts[j] >= min ==> ts[j] <= cutoff
}

/// Some position of `s` holds the index `i`.
pub open spec fn spec_holds_index(s: Seq<usize>, i: int) -> bool {
    exists|k: int| 0 <= k < s.len() && s[k] as int == i
}

/// The first record at or after `min` determines the synchronization
/// start.
proof fn lemma_sync_start_at(ts: Seq<u64>, min: u64, f: int)
    requires
        0 <= f < ts.len(),
        ts[f] >= min,
        forall|j: int| 0 <= j < f ==> ts[j] < min,
    ensures
        spec_sync_start(ts, min) == Some(ts[f]),
    decreases f,
{
    if f > 0 {
        assert(ts.drop_first()[f - 1] == ts[f]);
        assert forall|j: int| 0 <= j < f - 1 implies ts.drop_first()[j] < min by {
            assert(ts.drop_first()[j] == ts[j + 1]);
        }
        lemma_sync_start_at(ts.drop_first(), min, f - 1);
    }
}

/// With no record at or after `min`, there is no synchronization start.
proof fn lemma_sync_start_none(ts: Seq<u64>, min: u64)
    requires
        forall|j: int| 0 <= j < ts.len() ==> ts[j] < min,
    ensures
        spec_sync_start(ts, min) is None,
    decreases ts.len(),
{
    if ts.len() > 0 {
        assert forall|j: int| 0 <= j < ts.drop_first().len() implies ts.drop_first()[j] < min by {
            assert(ts.drop_first()[j] == ts[j + 1]);
        }
        lemma_sync_start_none(ts.drop_first(), min);
    }
}

/// Select the indices of the records forming one scan: skip records
/// before `min_timestamp`, open the window at the first record at or
/// after it, and keep candidates until the first whose capture time
/// exceeds the window cutoff. An empty result means no record reached
/// `min_timestamp` at all, or the window opened on a record already past
/// its own cutoff (which cannot happen, as the cutoff saturates).
pub fn select_scan_window(timestamps: &Vec<u64>, min_timestamp: u64) -> (r: Vec<usize>)
    ensures
        spec_sync_start(timestamps@, min_timestamp) is None ==> r@.len() == 0,
        spec_sync_start(timestamps@, min_timestamp) matches Some(start) ==> {
            let cutoff = spec_window_cutoff(start);
            &&& forall|k: int, l: int| 0 <= k < l < r@.len() ==> r@[k] < r@[l]
            &&& forall|k: int|
                0 <= k < r@.len() ==> spec_in_scan(
                    timestamps@,
                    min_timestamp,
                    cutoff,
                    #[trigger] r@[k] as int,
                )
            &&& forall|i: int|
                spec_in_scan(timestamps@, min_timestamp, cutoff, i) ==> spec_holds_index(r@, i)
        },
{
    let ghost ts = timestamps@;
    let mut kept: Vec<usize> = Vec::new();
    let mut started: bool = false;
    let mut cutoff: u64 = u64::MAX;
    let mut i: usize = 0;
    while i < timestamps.len()
        invariant
            ts == timestamps@,
            i <= ts.len(),
            !started ==> kept@.len() == 0 && (forall|j: int|
                0 <= j < i ==> ts[j] < min_timestamp),
            started ==> (spec_sync_start(ts, min_timestamp) matches Some(start) && cutoff
                == spec_window_cutoff(start)),
            started ==> (forall|j: int|
                0 <= j < i && #[trigger] ts[j] >= min_timestamp ==> ts[j] <= cutoff),
            forall|k: int, l: int| 0 <= k < l < kept@.len() ==> kept@[k] < kept@[l],
            forall|k: int|
                0 <= k < kept@.len() ==> #[trigger] kept@[k] < i && ts[kept@[k] as int]
                    >= min_timestamp,
            forall|idx: int|
                0 <= idx < i && ts[idx] >= min_timestamp ==> spec_holds_index(kept@, idx),
        decreases timestamps@.len() - i,
    {
        let t = timestamps[i];
        if t >= min_timestamp {
            if !started {
                started = true;
                cutoff = t.saturating_add(SCAN_DURATION_NS);
                proof {
                    lemma_sync_start_at(ts, min_timestamp, i as int);
                }
            }
            if t > cutoff {
                proof {
                    assert forall|idx: int|
                        spec_in_scan(ts, min_timestamp, cutoff, idx) implies spec_holds_index(
                        kept@,
                        idx,
                    ) by {
                        if idx >= i {
                            assert(ts[i as int] >= min_timestamp && ts[i as int] > cutoff);
                        }
                    }
                }
                return kept;
            }
            let ghost before = kept@;
            kept.push(i);
            proof {
                assert(kept@ =~= before.push(i));
                assert forall|idx: int|
                    0 <= idx < i + 1 && ts[idx] >= min_timestamp implies spec_holds_index(
                    kept@,
                    idx,
                ) by {
                    if idx < i {
                        assert(spec_holds_index(before, idx));
                        let k = choose|k: int|
                            0 <= k < before.len() && before[k] as int == idx;
                        assert(0 <= k < before.len() && before[k] as int == idx);
                        assert(kept@[k] as int == idx);
                    } else {
                        assert(kept@[kept@.len() - 1] as int == idx);
                    }
                }
            }
        }
        i = i + 1;
    }
    proof {
        if !started {
            lemma_sync_start_none(ts, min_timestamp);
        }
    }
    kept
}

} // verus!
