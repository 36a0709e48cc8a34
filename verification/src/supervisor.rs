//! The supervisor: it owns the shutdown signal, tracks one outcome slot per
//! spawned actor task, and gates the process exit on every task having
//! finished — a two-phase shutdown of "request" then "drain".

use vstd::prelude::*;

use crate::shutdown::ShutdownSignal;

verus! {

/// How one actor task ended, as the supervisor observes it.
#[derive(Clone, Copy, PartialEq, Eq, Structural, Debug)]
pub enum TaskOutcome {
    /// The task returned normally.
    Clean,
    /// The task returned a failure.
    Errored,
    /// The task ended abnormally without returning.
    Crashed,
}

/// The supervisor's bookkeeping: the shared shutdown signal and one outcome
/// slot per spawned task, filled exactly once as each task reports back.
pub struct Supervisor {
    /// The process-wide shutdown signal the supervisor hands to every actor.
    pub signal: ShutdownSignal,
    /// One slot per spawned task, `None` until that task reports back.
    pub outcomes: Vec<Option<TaskOutcome>>,
}

impl Supervisor {
    /// How many tasks this supervisor spawned.
    pub open spec fn task_count(&self) -> nat {
        self.outcomes@.len()
    }

    /// The outcome recorded for task `i`, if it has finished.
    pub open spec fn outcome(&self, i: int) -> Option<TaskOutcome> {
        self.outcomes@[i]
    }

    /// True once every spawned task has reported some outcome.
    pub open spec fn all_finished(&self) -> bool {
        forall|i: int| 0 <= i < self.task_count() ==> self.outcome(i) is Some
    }

    /// Builds a supervisor for `n` tasks: the signal starts armed and no
    /// task has an outcome yet.
    pub fn new(n: usize) -> (s: Self)
        ensures
            s.task_count() == n,
            !s.signal.spec_is_cancelled(),
            forall|i: int| 0 <= i < n ==> s.outcome(i) is None,
    {
        let mut outcomes: Vec<Option<TaskOutcome>> = Vec::new();
        let mut i: usize = 0;
        while i < n
            invariant
                i <= n,
                outcomes.len() == i,
                forall|j: int| 0 <= j < i ==> outcomes@[j] is None,
            decreases n - i,
        {
            outcomes.push(None);
            i = i + 1;
        }
        Supervisor { signal: ShutdownSignal::new(), outcomes }
    }

    /// Phase one of shutdown: requests cancellation. Safe to call any number
    /// of times; the tasks' outcome slots are untouched, so the drain keeps
    /// waiting for every still-running task.
    pub fn request_shutdown(&mut self)
        ensures
            final(self).signal.spec_is_cancelled(),
            final(self).task_count() == old(self).task_count(),
            forall|i: int|
                0 <= i < old(self).task_count() ==> final(self).outcome(i) == old(self).outcome(i),
    {
        self.signal.cancel();
    }

    /// Records how task `i` ended. Every outcome — clean, failed or crashed —
    /// is recorded the same way, exactly once per task, and recording one
    /// never touches another task's slot: no outcome aborts the drain.
    pub fn record_outcome(&mut self, i: usize, outcome: TaskOutcome)
        requires
            i < old(self).task_count(),
            old(self).outcome(i as int) is None,
        ensures
            final(self).task_count() == old(self).task_count(),
            final(self).outcome(i as int) == Some(outcome),
            forall|j: int|
                0 <= j < old(self).task_count() && j != i ==> final(self).outcome(j) == old(
                    self,
                ).outcome(j),
            final(self).signal == old(self).signal,
    {
        self.outcomes.set(i, Some(outcome));
    }

    /// The drain gate: the supervisor's wait returns a report — and the
    /// process may exit — exactly when every spawned task has reported an
    /// outcome, and the report then lists each task's outcome. Before that
    /// the wait yields nothing, never an early exit.
    pub fn exit_report(&self) -> (r: Option<Vec<TaskOutcome>>)
        ensures
            r is Some <==> self.all_finished(),
            r matches Some(report) ==> {
                &&& report@.len() == self.task_count()
                &&& forall|i: int|
                    0 <= i < self.task_count() ==> Some(#[trigger] report@[i]) == self.outcome(i)
            },
    {
        let n = self.outcomes.len();
        let mut report: Vec<TaskOutcome> = Vec::new();
        let mut i: usize = 0;
        while i < n
            invariant
                i <= n,
                n == self.task_count(),
                report.len() == i,
                forall|j: int| 0 <= j < i ==> Some(#[trigger] report@[j]) == self.outcome(j),
            decreases n - i,
        {
            match self.outcomes[i] {
                Some(outcome) => {
                    report.push(outcome);
                },
                None => {
                    proof {
                        assert(self.outcome(i as int) is None);
                    }
                    return None;
                },
            }
            i = i + 1;
        }
        proof {
            assert forall|j: int| 0 <= j < self.task_count() implies self.outcome(j) is Some by {
                assert(Some(report@[j]) == self.outcome(j));
            }
        }
        Some(report)
    }
}

/// Drain completion: whenever the supervisor's wait hands back a report, every
/// spawned task has finished with some outcome — the wait never returns early,
/// whatever mixture of clean exits, failures and crashes the tasks produced.
pub proof fn lemma_drain_completion(s: Supervisor)
    requires
        s.all_finished(),
    ensures
        forall|i: int| 0 <= i < s.task_count() ==> s.outcome(i) is Some,
{
}

} // verus!
