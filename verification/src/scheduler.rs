//! The key tasks that the scheduler runs, the count of key presses sent per
//! task, and the pacing decision of a task's worker between two presses.
use std::collections::HashMap;
use vstd::prelude::*;
use crate::key_sender::VirtualKey;

verus! {

broadcast use vstd::std_specs::hash::group_hash_axioms;

/// One key to press again and again: its task id, the key, and the time
/// between two presses.
#[derive(Clone, Copy, Debug, PartialEq, Eq, Structural)]
pub struct KeyTask {
    pub id: u32,
    pub vk: VirtualKey,
    pub interval_ms: u64,
}

/// The number of key presses sent, per task id.
#[derive(Clone, Debug)]
pub struct SendStats {
    pub counts: HashMap<u32, u64>,
}

/// The count of a task in a map of counts: zero where it has none.
pub open spec fn count_in(counts: Map<u32, u64>, id: u32) -> u64 {
    if counts.contains_key(id) {
        counts[id]
    } else {
        0
    }
}

impl SendStats {
    pub fn new() -> (s: SendStats)
        ensures
            s.counts@ == Map::<u32, u64>::empty(),
    {
        SendStats { counts: HashMap::new() }
    }

    /// Forgets every count.
    pub fn clear(&mut self)
        ensures
            final(self).counts@ == Map::<u32, u64>::empty(),
    {
        self.counts.clear();
    }

    /// The number of presses sent for task `id`.
    pub fn count(&self, id: u32) -> (n: u64)
        ensures
            n == count_in(self.counts@, id),
    {
        match self.counts.get(&id) {
            Some(n) => *n,
            None => 0,
        }
    }

    /// Counts one more press for task `id`.
    pub fn record_send(&mut self, id: u32)
        requires
            count_in(old(self).counts@, id) < u64::MAX,
        ensures
            final(self).counts@ == old(self).counts@.insert(
                id,
                (count_in(old(self).counts@, id) + 1) as u64,
            ),
    {
        let n = self.count(id);
        self.counts.insert(id, n + 1);
    }
}

impl Default for SendStats {
    fn default() -> (s: SendStats)
        ensures
            s.counts@ == Map::<u32, u64>::empty(),
    {
        SendStats::new()
    }
}

/// The longest single sleep of a worker between two presses, in nanoseconds:
/// a stop request is noticed at least this often.
pub const SLEEP_STEP_NANOS: u64 = 50_000_000;

/// The worker's next sleep, in nanoseconds, after a press that took
/// `elapsed` and `slept` of sleeping since: the rest of the interval, cut to
/// at most one step; `None` once the interval is used up.
pub open spec fn next_sleep_spec(interval: u64, elapsed: u64, slept: u64) -> Option<u64> {
    if elapsed >= interval || slept >= interval - elapsed {
        None
    } else {
        let rest = (interval - elapsed - slept) as u64;
        Some(
            if rest < SLEEP_STEP_NANOS {
                rest
            } else {
                SLEEP_STEP_NANOS
            },
        )
    }
}

pub fn next_sleep_nanos(interval: u64, elapsed: u64, slept: u64) -> (step: Option<u64>)
    ensures
        step == next_sleep_spec(interval, elapsed, slept),
{
    if elapsed >= interval {
        return None;
    }
    let remaining = interval - elapsed;
    if slept >= remaining {
        return None;
    }
    let rest = remaining - slept;
    if rest < SLEEP_STEP_NANOS {
        Some(rest)
    } else {
        Some(SLEEP_STEP_NANOS)
    }
}

/// Every sleep is positive, no longer than one step, and never carries the
/// worker past the end of the interval; so a worker that keeps sleeping while
/// it is asked to stops sleeping exactly when the interval is used up.
pub proof fn lemma_sleep_steps_fill_interval(interval: u64, elapsed: u64, slept: u64)
    requires
        elapsed < interval,
        slept <= interval - elapsed,
    ensures
        next_sleep_spec(interval, elapsed, slept) is None <==> slept == interval - elapsed,
        next_sleep_spec(interval, elapsed, slept) matches Some(step) ==> 0 < step
            <= SLEEP_STEP_NANOS && slept + step <= interval - elapsed,
{
}

} // verus!
