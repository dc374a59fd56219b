//! Drift-corrected scheduling of collection cycles.
//!
//! The scheduler keeps a monotone deadline, advanced by a fixed interval
//! after every cycle, and sleeps until that deadline rather than for a
//! fixed span after each cycle. A cycle that overruns its interval yields
//! a zero sleep, never a negative one. Times are milliseconds on the
//! caller's clock.

use vstd::prelude::*;

verus! {

/// What the process does after one collection cycle has settled.
#[derive(Clone, Copy, Debug, PartialEq, Eq, Structural)]
pub enum NextStep {
    /// One-shot mode: no further cycle runs.
    Stop,
    /// Periodic mode: sleep this many milliseconds, then run the next cycle.
    RunAfter(u64),
}

/// Periodic schedule state: the fixed interval and the next deadline.
#[derive(Clone, Copy, Debug, PartialEq, Eq, Structural)]
pub struct Schedule {
    pub interval_ms: u64,
    pub next_deadline_ms: u64,
}

/// The deadline one interval later, clamped to the top of the clock.
pub open spec fn spec_advanced_deadline(s: Schedule) -> u64 {
    if s.next_deadline_ms + s.interval_ms <= u64::MAX {
        (s.next_deadline_ms + s.interval_ms) as u64
    } else {
        u64::MAX
    }
}

/// How long to sleep at `now_ms` to wake at the deadline: zero once the
/// deadline has passed.
pub open spec fn spec_sleep(s: Schedule, now_ms: u64) -> u64 {
    if now_ms >= s.next_deadline_ms {
        0
    } else {
        (s.next_deadline_ms - now_ms) as u64
    }
}

impl Schedule {
    /// A schedule anchored at `start_ms`: the first cycle is owed at
    /// `start_ms + interval_ms`, and every later one a further interval on.
    pub fn new(start_ms: u64, interval_ms: u64) -> (s: Schedule)
        requires
            start_ms + interval_ms <= u64::MAX,
        ensures
            s.interval_ms == interval_ms,
            s.next_deadline_ms == start_ms + interval_ms,
    {
        Schedule { interval_ms, next_deadline_ms: start_ms + interval_ms }
    }

    /// Milliseconds left until the next deadline, clamped at zero when the
    /// current cycle overran the interval.
    pub fn sleep_before_next(&self, now_ms: u64) -> (d: u64)
        ensures
            d == spec_sleep(*self, now_ms),
    {
        if now_ms >= self.next_deadline_ms {
            0
        } else {
            self.next_deadline_ms - now_ms
        }
    }

    /// Move the deadline one interval on. The new deadline is computed from
    /// the previous deadline, not from the current time, so a slow cycle
    /// does not push later cycles off cadence.
    pub fn advance(&mut self)
        ensures
            final(self).interval_ms == old(self).interval_ms,
            final(self).next_deadline_ms == spec_advanced_deadline(*old(self)),
            *final(self) == spec_advance(*old(self)),
    {
        if u64::MAX - self.interval_ms >= self.next_deadline_ms {
            self.next_deadline_ms = self.next_deadline_ms + self.interval_ms;
        } else {
            self.next_deadline_ms = u64::MAX;
        }
    }

    /// Decide what follows a settled cycle. In one-shot mode the answer is
    /// always to stop, whatever the cycle did; in periodic mode the schedule
    /// advances and the caller sleeps out the remainder of the interval.
    pub fn next_step(&mut self, oneshot: bool, now_ms: u64) -> (step: NextStep)
        ensures
            oneshot ==> step == NextStep::Stop && *final(self) == *old(self),
            !oneshot ==> step == NextStep::RunAfter(spec_sleep(*old(self), now_ms))
                && final(self).interval_ms == old(self).interval_ms
                && final(self).next_deadline_ms == spec_advanced_deadline(*old(self)),
    {
        if oneshot {
            NextStep::Stop
        } else {
            let d = self.sleep_before_next(now_ms);
            self.advance();
            NextStep::RunAfter(d)
        }
    }
}

/// The schedule after one advance.
pub open spec fn spec_advance(s: Schedule) -> Schedule {
    Schedule { interval_ms: s.interval_ms, next_deadline_ms: spec_advanced_deadline(s) }
}

/// The schedule after `k` advances.
pub open spec fn spec_after_ticks(s: Schedule, k: nat) -> Schedule
    decreases k,
{
    if k == 0 {
        s
    } else {
        spec_advance(spec_after_ticks(s, (k - 1) as nat))
    }
}

/// As long as the clock does not run out, the deadlines form a fixed
/// cadence: after `k` cycles the deadline stands exactly `k` intervals past
/// the first one, however long any of those cycles took.
pub proof fn lemma_deadlines_form_fixed_cadence(s: Schedule, k: nat)
    requires
        s.next_deadline_ms + k * s.interval_ms <= u64::MAX,
    ensures
        spec_after_ticks(s, k).interval_ms == s.interval_ms,
        spec_after_ticks(s, k).next_deadline_ms == s.next_deadline_ms + k * s.interval_ms,
    decreases k,
{
    if k > 0 {
        let ki = k as int;
        let i = s.interval_ms as int;
        assert(ki * i == (ki - 1) * i + i && (ki - 1) * i >= 0) by (nonlinear_arith)
            requires
                ki >= 1,
                i >= 0,
        ;
        lemma_deadlines_form_fixed_cadence(s, (k - 1) as nat);
    } else {
        assert(k * s.interval_ms == 0) by (nonlinear_arith)
            requires
                k == 0,
        ;
    }
}

/// A cycle that finishes before its deadline wakes exactly on the deadline,
/// and successive deadlines are spaced by exactly one interval: the cadence
/// is anchored to the schedule's start, not to when each cycle happened to
/// finish.
pub proof fn lemma_cadence_is_drift_free(s: Schedule, now_ms: u64)
    requires
        now_ms <= s.next_deadline_ms,
        s.next_deadline_ms + s.interval_ms <= u64::MAX,
    ensures
        now_ms + spec_sleep(s, now_ms) == s.next_deadline_ms,
        spec_advanced_deadline(s) == s.next_deadline_ms + s.interval_ms,
{
}

/// A cycle that overran its interval is followed by a zero sleep: the next
/// cycle starts immediately, and no negative duration ever arises.
pub proof fn lemma_overrun_starts_immediately(s: Schedule, now_ms: u64)
    requires
        now_ms >= s.next_deadline_ms,
    ensures
        spec_sleep(s, now_ms) == 0,
{
}

} // verus!
