//! Bounded retry of a fallible probe: the decisions, one probe result at a time.
//! The caller runs the probe, sleeps the interval between attempts and fires
//! the callback that a tick names.

use vstd::prelude::*;

verus! {

/// What the caller does after handing a probe result to the restarter.
#[derive(Debug, Clone, Copy, PartialEq, Eq, Structural)]
pub enum TickOutcome {
    /// The probe succeeded: fire the success callback; the restarter is done.
    Succeeded,
    /// The last allowed attempt failed: fire the failure callback; the restarter is done.
    Exhausted,
    /// Sleep the interval, then probe again.
    Retry,
    /// The restarter had already finished: fire nothing.
    Finished,
}

pub struct TaskRestarter {
    max_attempts: usize,
    interval_secs: u64,
    attempts: usize,
    finished: bool,
}

impl TaskRestarter {
    pub closed spec fn spec_max_attempts(&self) -> nat {
        self.max_attempts as nat
    }

    pub closed spec fn spec_interval_secs(&self) -> u64 {
        self.interval_secs
    }

    /// Failed probes so far.
    pub closed spec fn spec_attempts(&self) -> nat {
        self.attempts as nat
    }

    /// Whether a callback has been named already.
    pub closed spec fn spec_finished(&self) -> bool {
        self.finished
    }

    pub closed spec fn wf(&self) -> bool {
        self.attempts <= self.max_attempts
    }

    pub fn new(max_attempts: usize, interval_secs: u64) -> (r: TaskRestarter)
        ensures
            r.wf(),
            r.spec_max_attempts() == max_attempts,
            r.spec_interval_secs() == interval_secs,
            r.spec_attempts() == 0,
            !r.spec_finished(),
    {
        TaskRestarter { max_attempts, interval_secs, attempts: 0, finished: false }
    }

    pub fn interval_secs(&self) -> (r: u64)
        ensures
            r == self.spec_interval_secs(),
    {
        self.interval_secs
    }

    pub fn attempts(&self) -> (r: usize)
        ensures
            r == self.spec_attempts(),
    {
        self.attempts
    }

    pub fn is_finished(&self) -> (r: bool)
        ensures
            r == self.spec_finished(),
    {
        self.finished
    }

    /// Takes the result of one probe call. A success ends the run; a failure
    /// ends it once `max_attempts` probes have failed, and asks for a retry
    /// otherwise. After the end every tick is `Finished`, so each callback is
    /// named at most once.
    pub fn try_running_tick(&mut self, probe_succeeded: bool) -> (r: TickOutcome)
        requires
            old(self).wf(),
        ensures
            final(self).wf(),
            final(self).spec_max_attempts() == old(self).spec_max_attempts(),
            final(self).spec_interval_secs() == old(self).spec_interval_secs(),
            old(self).spec_finished() ==> r == TickOutcome::Finished && *final(self) == *old(self),
            !old(self).spec_finished() && probe_succeeded ==> r == TickOutcome::Succeeded
                && final(self).spec_finished() && final(self).spec_attempts()
                == old(self).spec_attempts(),
            !old(self).spec_finished() && !probe_succeeded ==> final(self).spec_attempts() == (
            if old(self).spec_attempts() < old(self).spec_max_attempts() {
                old(self).spec_attempts() + 1
            } else {
                old(self).spec_attempts()
            }),
            !old(self).spec_finished() && !probe_succeeded ==> (r == TickOutcome::Exhausted
                <==> old(self).spec_attempts() + 1 >= old(self).spec_max_attempts()),
            !old(self).spec_finished() && !probe_succeeded ==> (r == TickOutcome::Retry
                <==> old(self).spec_attempts() + 1 < old(self).spec_max_attempts()),
            !old(self).spec_finished() && !probe_succeeded ==> (final(self).spec_finished() <==> r
                == TickOutcome::Exhausted),
    {
        if self.finished {
            return TickOutcome::Finished;
        }
        if probe_succeeded {
            self.finished = true;
            return TickOutcome::Succeeded;
        }
        if self.attempts < self.max_attempts {
            self.attempts = self.attempts + 1;
        }
        if self.attempts >= self.max_attempts {
            self.finished = true;
            TickOutcome::Exhausted
        } else {
            TickOutcome::Retry
        }
    }
}

} // verus!
