//! The tick loop's decisions. Ticks are due at fixed times measured from the
//! start, not from the end of the previous submission, and a tick never
//! begins while a submission is still in flight.
use crate::name::{generate_name, is_task_name};
use crate::submission::{Receipt, SubmitError};
use vstd::prelude::*;

verus! {

/// Time units between two ticks.
pub const TICK_INTERVAL: u64 = 15;

/// Whether a submission is in flight.
#[derive(Clone, Copy, Debug, PartialEq, Eq, Structural)]
pub enum Phase {
    /// Waiting for the next tick.
    Idle,
    /// A submission is in flight.
    Running,
}

/// The scheduler: `ticks` ticks have begun since `start`.
#[derive(Clone, Copy, Debug, PartialEq, Eq, Structural)]
pub struct Scheduler {
    pub phase: Phase,
    pub start: u64,
    pub interval: u64,
    pub ticks: u64,
}

impl Scheduler {
    /// When the tick with index `k` (from zero) is due.
    pub open spec fn deadline(self, k: nat) -> int {
        self.start + k * self.interval
    }

    /// A timer that fires at `now` begins a tick.
    pub open spec fn fires(self, now: int) -> bool {
        self.phase == Phase::Idle && now >= self.deadline(self.ticks as nat)
    }

    /// The scheduler after its timer fired at `now`.
    pub open spec fn after_timer(self, now: int) -> Scheduler {
        if self.fires(now) {
            Scheduler { phase: Phase::Running, ticks: (self.ticks + 1) as u64, ..self }
        } else {
            self
        }
    }

    /// The scheduler after the submission in flight resolved, whatever its outcome.
    pub open spec fn after_resolved(self) -> Scheduler {
        Scheduler { phase: Phase::Idle, ..self }
    }

    /// The scheduler after one timer event at each time of `times`, each
    /// followed by the resolution of what it began.
    pub open spec fn run(self, times: Seq<int>) -> Scheduler
        decreases times.len(),
    {
        if times.len() == 0 {
            self
        } else {
            self.after_timer(times[0]).after_resolved().run(times.drop_first())
        }
    }

    /// A scheduler started at `start` whose ticks come every `interval`.
    pub fn new(start: u64, interval: u64) -> (r: Scheduler)
        requires
            interval > 0,
        ensures
            r == (Scheduler { phase: Phase::Idle, start, interval, ticks: 0 }),
    {
        Scheduler { phase: Phase::Idle, start, interval, ticks: 0 }
    }

    /// When the next tick is due, or `None` where that time is past `u64::MAX`.
    pub fn next_deadline(&self) -> (r: Option<u64>)
        ensures
            match r {
                Some(t) => t == self.deadline(self.ticks as nat),
                None => self.deadline(self.ticks as nat) > u64::MAX,
            },
    {
        match self.ticks.checked_mul(self.interval) {
            None => {
                proof {
                    assert(self.ticks * self.interval <= self.start + self.ticks * self.interval);
                }
                None
            },
            Some(offset) => self.start.checked_add(offset),
        }
    }

    /// The timer fired at `now`. Where a tick is due and no submission is in
    /// flight, the tick begins and the name for its submission is returned.
    pub fn on_timer(&mut self, now: u64) -> (r: Option<String>)
        requires
            old(self).ticks < u64::MAX,
        ensures
            *final(self) == old(self).after_timer(now as int),
            r is Some <==> old(self).fires(now as int),
            r matches Some(name) ==> is_task_name(name@),
    {
        if self.phase == Phase::Idle {
            match self.next_deadline() {
                Some(due) => {
                    if now >= due {
                        self.phase = Phase::Running;
                        self.ticks = self.ticks + 1;
                        return Some(generate_name());
                    }
                },
                None => {},
            }
        }
        None
    }

    /// The submission in flight resolved with `outcome`; the scheduler waits
    /// for the next tick whatever the outcome, and hands back the error, if
    /// any, to be logged.
    pub fn on_resolved(&mut self, outcome: &Result<Receipt, SubmitError>) -> (r: Option<SubmitError>)
        ensures
            *final(self) == old(self).after_resolved(),
            r == match outcome {
                Ok(_) => None::<SubmitError>,
                Err(e) => Some(*e),
            },
    {
        self.phase = Phase::Idle;
        match outcome {
            Ok(_) => None,
            Err(e) => Some(*e),
        }
    }
}

/// Across a run of timer events, each followed by the resolution of what it
/// began, whatever the submissions' outcomes: where every event comes at or
/// after the deadline of the tick it would begin, each event begins exactly
/// one tick, so `n` events begin `n` ticks, and consecutive ticks are due
/// exactly one interval apart.
pub proof fn lemma_one_tick_per_due_event(s: Scheduler, times: Seq<int>)
    requires
        s.phase == Phase::Idle,
        s.ticks + times.len() <= u64::MAX,
        forall|i: int| 0 <= i < times.len() ==> #[trigger] times[i] >= s.deadline((s.ticks + i) as nat),
    ensures
        s.run(times).ticks == s.ticks + times.len(),
        s.run(times).phase == Phase::Idle,
        s.run(times).start == s.start,
        s.run(times).interval == s.interval,
        forall|k: nat| #[trigger] s.deadline(k + 1) - s.deadline(k) == s.interval,
    decreases times.len(),
{
    assert forall|k: nat| #[trigger] s.deadline(k + 1) - s.deadline(k) == s.interval by {
        assert((k + 1) * s.interval == k * s.interval + s.interval) by (nonlinear_arith);
    }
    if times.len() > 0 {
        assert(times[0] >= s.deadline((s.ticks + 0) as nat));
        let next = s.after_timer(times[0]).after_resolved();
        let rest = times.drop_first();
        assert forall|i: int| 0 <= i < rest.len() implies #[trigger] rest[i] >= next.deadline(
            (next.ticks + i) as nat,
        ) by {
            assert(rest[i] == times[i + 1]);
            assert(times[i + 1] >= s.deadline((s.ticks + (i + 1)) as nat));
        }
        lemma_one_tick_per_due_event(next, rest);
    }
}

/// A timer event before the deadline of the next tick, or while a submission
/// is in flight, begins nothing.
pub proof fn lemma_no_early_or_overlapping_tick(s: Scheduler, now: int)
    requires
        s.phase == Phase::Running || now < s.deadline(s.ticks as nat),
    ensures
        s.after_timer(now) == s,
{
}

} // verus!
