//! The watch loop's decision rule.
//!
//! The loop itself is plain plumbing (scan, sleep, spawn a command and wait
//! for it); what it decides each cycle lives here. A baseline timestamp is
//! primed once at startup without running anything; afterwards each poll
//! compares the freshly detected value against the baseline. Only a strict
//! increase triggers a run and advances the baseline; an equal or lower
//! value (files deleted) changes nothing, so the baseline never moves
//! backwards. Multiple changes within one cycle collapse into the one new
//! maximum, hence into a single run.

use vstd::prelude::*;

verus! {

/// The watch loop's mutable state: the newest modification time recorded
/// at the last triggering (or priming) event.
pub struct WatchState {
    pub baseline: u64,
}

/// Records the startup scan as the baseline. Priming never triggers a
/// run, however new the files already are.
pub fn prime(current: u64) -> (s: WatchState)
    ensures
        s.baseline == current,
{
    WatchState { baseline: current }
}

/// One poll cycle's decision: run exactly when the detected value rose
/// above the baseline, and advance the baseline to it just then. An equal
/// or lower value (a deletion can lower the detected maximum) triggers
/// nothing and leaves the baseline where it was, so the baseline never
/// decreases.
pub fn poll_step(s: &mut WatchState, current: u64) -> (run: bool)
    ensures
        run == (current > old(s).baseline),
        run ==> final(s).baseline == current,
        !run ==> final(s).baseline == old(s).baseline,
        final(s).baseline >= old(s).baseline,
{
    if current > s.baseline {
        s.baseline = current;
        true
    } else {
        false
    }
}

/// Touching tracked files so that the detected value rises triggers
/// exactly one run for the whole batch: the poll that sees the new maximum
/// runs once and advances the baseline to it, and a following poll that
/// detects the same value runs nothing.
pub proof fn lemma_one_run_per_change(s0: WatchState, s1: WatchState, s2: WatchState,
    current: u64, run1: bool, run2: bool)
    requires
        current > s0.baseline,
        run1 == (current > s0.baseline),
        run1 ==> s1.baseline == current,
        !run1 ==> s1.baseline == s0.baseline,
        run2 == (current > s1.baseline),
        run2 ==> s2.baseline == current,
        !run2 ==> s2.baseline == s1.baseline,
    ensures
        run1,
        !run2,
        s2.baseline == current,
{
}

} // verus!
