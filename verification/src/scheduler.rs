//! The adaptive-interval protocol of one periodic loop. Each loop —
//! heartbeat or telemetry — owns one scheduler; no state is shared
//! between loops. A tick's outcome may adopt a server-supplied cadence;
//! everything else retains the previous one, and the effective wait
//! never drops below one second.

use vstd::prelude::*;
use crate::relay::TransportFault;

verus! {

/// The interval that follows a tick: a positive hint is adopted, no hint
/// or a non-positive hint retains the current interval.
pub open spec fn spec_next_interval(current: u64, hint: Option<u64>) -> u64 {
    match hint {
        Some(h) => if h > 0 {
            h
        } else {
            current
        },
        None => current,
    }
}

/// The wait a loop actually sleeps: the current interval, floored at one
/// second so that no configuration or server hint can induce a busy loop.
pub open spec fn spec_effective_wait(interval_secs: u64) -> u64 {
    if interval_secs >= 1 {
        interval_secs
    } else {
        1
    }
}

/// The effective wait is never below one second, whatever the interval.
pub proof fn lemma_effective_wait_floor(interval_secs: u64)
    ensures
        spec_effective_wait(interval_secs) >= 1,
{
}

/// Per-loop adaptive wait state, owned exclusively by its loop.
#[derive(Clone, Copy, PartialEq, Eq, Structural, Debug)]
pub struct LoopScheduler {
    pub interval_secs: u64,
}

impl LoopScheduler {
    /// A scheduler starting at the configured default cadence.
    pub fn new(default_interval_secs: u64) -> (s: Self)
        ensures
            s.interval_secs == default_interval_secs,
    {
        LoopScheduler { interval_secs: default_interval_secs }
    }

    /// Apply a response's interval hint: adopt a positive hint, retain
    /// the current interval on no hint or a zero hint.
    pub fn apply_hint(&mut self, hint: Option<u64>)
        ensures
            final(self).interval_secs == spec_next_interval(old(self).interval_secs, hint),
    {
        match hint {
            Some(h) => {
                if h > 0 {
                    self.interval_secs = h;
                }
            },
            None => {},
        }
    }

    /// Apply one tick's outcome: a transport fault retains the current
    /// interval — a failed tick is retried at the unchanged cadence —
    /// and a reachable relay's hint is applied as `apply_hint` says.
    pub fn apply_tick_outcome(&mut self, outcome: &Result<Option<u64>, TransportFault>)
        ensures
            final(self).interval_secs == (match outcome {
                Ok(hint) => spec_next_interval(old(self).interval_secs, *hint),
                Err(_) => old(self).interval_secs,
            }),
    {
        match outcome {
            Ok(hint) => self.apply_hint(*hint),
            Err(_) => {},
        }
    }

    /// The seconds to sleep before the next tick: the current interval,
    /// never below one second.
    pub fn effective_wait_secs(&self) -> (w: u64)
        ensures
            w == spec_effective_wait(self.interval_secs),
            w >= 1,
    {
        if self.interval_secs >= 1 {
            self.interval_secs
        } else {
            1
        }
    }
}

} // verus!
