//! Temporal patterns in a sequence of instants: dense page switching,
//! repeated copying, and bursts of events.

use crate::time::{millis_between, seconds_between, Timestamp};
use vstd::prelude::*;

verus! {

// ---------------------------------------------------------------------------
// Switch frequency: how densely the page was left and re-entered.
// ---------------------------------------------------------------------------

/// Scanning the switches from index `j` on, relative to the switch at index
/// `i`, until the first one at least five minutes after it: how many lie
/// less than a minute after it, and how many were scanned.
pub open spec fn switch_window(ts: Seq<Timestamp>, i: int, j: int) -> (nat, nat)
    decreases ts.len() - j,
{
    if j < 0 || j >= ts.len() {
        (0, 0)
    } else {
        let d = seconds_between(ts[j], ts[i]);
        if d < 300 {
            let rest = switch_window(ts, i, j + 1);
            (rest.0 + if d < 60 { 1nat } else { 0nat }, rest.1 + 1)
        } else {
            (0, 0)
        }
    }
}

/// Over the windows that start at the first `k` switches: how many hold at
/// least three switches within a minute, how many hold at least five within
/// five minutes, and the most switches within a minute of any start.
pub open spec fn switch_stats(ts: Seq<Timestamp>, k: int) -> (nat, nat, nat)
    decreases k,
{
    if k <= 0 {
        (0, 0, 0)
    } else {
        let prev = switch_stats(ts, k - 1);
        let w = switch_window(ts, k - 1, k - 1);
        (
            prev.0 + if w.0 >= 3 { 1nat } else { 0nat },
            prev.1 + if w.1 >= 5 { 1nat } else { 0nat },
            if w.0 > prev.2 { w.0 } else { prev.2 },
        )
    }
}

/// The switch statistics of the whole sequence of switches.
pub open spec fn switch_frequency(ts: Seq<Timestamp>) -> (nat, nat, nat) {
    switch_stats(ts, ts.len() as int)
}

pub(crate) proof fn lemma_switch_window_bounds(ts: Seq<Timestamp>, i: int, j: int)
    requires
        0 <= j <= ts.len(),
    ensures
        switch_window(ts, i, j).0 <= switch_window(ts, i, j).1 <= ts.len() - j,
    decreases ts.len() - j,
{
    if j < ts.len() {
        lemma_switch_window_bounds(ts, i, j + 1);
    }
}

// ---------------------------------------------------------------------------
// Copy frequency.
// ---------------------------------------------------------------------------

/// Scanning the copies from index `j` on: how many follow one another less
/// than a minute after the copy at index `i`, up to the first that does not.
pub open spec fn copy_window(cs: Seq<(Timestamp, usize)>, i: int, j: int) -> nat
    decreases cs.len() - j,
{
    if j < 0 || j >= cs.len() {
        0
    } else if seconds_between(cs[j].0, cs[i].0) < 60 {
        1 + copy_window(cs, i, j + 1)
    } else {
        0
    }
}

/// How many of the first `k` copies start a run of at least two copies
/// within a minute.
pub open spec fn frequent_copy_count(cs: Seq<(Timestamp, usize)>, k: int) -> nat
    decreases k,
{
    if k <= 0 {
        0
    } else {
        frequent_copy_count(cs, k - 1) + if copy_window(cs, k - 1, k - 1) >= 2 { 1nat } else { 0nat }
    }
}

/// How many copies start a run of at least two copies within a minute.
pub open spec fn frequent_copies(cs: Seq<(Timestamp, usize)>) -> nat {
    frequent_copy_count(cs, cs.len() as int)
}

// ---------------------------------------------------------------------------
// Rapid succession: bursts of events closer together than an interval.
// ---------------------------------------------------------------------------

/// Over the first `k` events: how many of them end a run of at least five
/// events each closer than `interval_ms` to the one before, and the length
/// of the run that the `k`-th event ends.
pub open spec fn rapid_runs(ts: Seq<Timestamp>, interval_ms: int, k: int) -> (nat, nat)
    decreases k,
{
    if k <= 1 {
        (0, 1)
    } else {
        let prev = rapid_runs(ts, interval_ms, k - 1);
        if millis_between(ts[k - 1], ts[k - 2]) < interval_ms {
            let run = prev.1 + 1;
            (prev.0 + if run >= 5 { 1nat } else { 0nat }, run)
        } else {
            (prev.0, 1)
        }
    }
}

/// How many events end a run of at least five events each closer than
/// `interval_ms` to the one before.
pub open spec fn rapid_succession(ts: Seq<Timestamp>, interval_ms: int) -> nat {
    if ts.len() < 2 {
        0
    } else {
        rapid_runs(ts, interval_ms, ts.len() as int).0
    }
}

pub(crate) proof fn lemma_rapid_runs_bounds(ts: Seq<Timestamp>, interval_ms: int, k: int)
    requires
        k >= 1,
    ensures
        rapid_runs(ts, interval_ms, k).0 < k,
        1 <= rapid_runs(ts, interval_ms, k).1 <= k,
    decreases k,
{
    if k > 1 {
        lemma_rapid_runs_bounds(ts, interval_ms, k - 1);
    }
}


/// The first `i` steps of the run count see only the first `i` instants.
proof fn lemma_rapid_runs_prefix(ts: Seq<Timestamp>, interval_ms: int, k: int, i: int)
    requires
        1 <= i <= k <= ts.len(),
    ensures
        rapid_runs(ts.take(k), interval_ms, i) == rapid_runs(ts, interval_ms, i),
    decreases i,
{
    if i > 1 {
        lemma_rapid_runs_prefix(ts, interval_ms, k, i - 1);
    }
}

/// After a gap of at least `interval_ms` before the instant at index `k`,
/// the runs start afresh: the count so far is the count up to `k` plus the
/// count of the instants from `k` on, and the run is the run of those.
proof fn lemma_rapid_runs_after_gap(ts: Seq<Timestamp>, interval_ms: int, k: int, j: int)
    requires
        1 <= k < j <= ts.len(),
        millis_between(ts[k], ts[k - 1]) >= interval_ms,
    ensures
        rapid_runs(ts, interval_ms, j).0 == rapid_runs(ts, interval_ms, k).0 + rapid_runs(
            ts.skip(k),
            interval_ms,
            j - k,
        ).0,
        rapid_runs(ts, interval_ms, j).1 == rapid_runs(ts.skip(k), interval_ms, j - k).1,
    decreases j,
{
    if j > k + 1 {
        lemma_rapid_runs_after_gap(ts, interval_ms, k, j - 1);
        assert(ts.skip(k)[j - 1 - k] == ts[j - 1]);
        assert(ts.skip(k)[j - 2 - k] == ts[j - 2]);
    }
}

/// A gap of at least `interval_ms` between consecutive events ends every
/// run: the bursts counted in the whole sequence are those counted before
/// the gap plus those counted after it, and the event after the gap starts
/// a run of one.
pub proof fn lemma_rapid_succession_splits_at_gap(ts: Seq<Timestamp>, interval_ms: int, k: int)
    requires
        1 <= k < ts.len(),
        millis_between(ts[k], ts[k - 1]) >= interval_ms,
    ensures
        rapid_succession(ts, interval_ms) == rapid_succession(ts.take(k), interval_ms)
            + rapid_succession(ts.skip(k), interval_ms),
        rapid_runs(ts, interval_ms, k + 1).1 == 1,
{
    lemma_rapid_runs_after_gap(ts, interval_ms, k, ts.len() as int);
    lemma_rapid_runs_after_gap(ts, interval_ms, k, k + 1);
    lemma_rapid_runs_prefix(ts, interval_ms, k, k);
    assert(ts.take(k).len() == k);
    assert(ts.skip(k).len() == ts.len() - k);
}

/// The run that the `k`-th instant ends is the longest stretch of instants
/// ending there in which each follows the one before by less than
/// `interval_ms`: every step inside it is short, and the step into it, if
/// any, is not.
pub proof fn lemma_rapid_run_is_maximal_stretch(ts: Seq<Timestamp>, interval_ms: int, k: int)
    requires
        1 <= k <= ts.len(),
    ensures
        1 <= rapid_runs(ts, interval_ms, k).1 <= k,
        forall|j: int|
            k - rapid_runs(ts, interval_ms, k).1 < j < k ==> millis_between(
                #[trigger] ts[j],
                ts[j - 1],
            ) < interval_ms,
        rapid_runs(ts, interval_ms, k).1 < k ==> millis_between(
            ts[k - rapid_runs(ts, interval_ms, k).1],
            ts[k - rapid_runs(ts, interval_ms, k).1 - 1],
        ) >= interval_ms,
    decreases k,
{
    if k > 1 {
        lemma_rapid_run_is_maximal_stretch(ts, interval_ms, k - 1);
    }
}

/// The burst count grows by one exactly at the events that end a run of at
/// least five.
pub proof fn lemma_rapid_count_steps(ts: Seq<Timestamp>, interval_ms: int, k: int)
    requires
        1 <= k < ts.len(),
    ensures
        rapid_runs(ts, interval_ms, k + 1).0 == rapid_runs(ts, interval_ms, k).0 + if rapid_runs(
            ts,
            interval_ms,
            k + 1,
        ).1 >= 5 {
            1nat
        } else {
            0nat
        },
{
}

} // verus!
