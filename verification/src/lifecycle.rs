//! The uniform actor lifecycle.
//!
//! Every actor follows the same shape: it starts, runs its loop, and on each
//! iteration waits on the shutdown signal and on its own readiness condition
//! at the same time. Whichever is ready first is handled; when both are ready
//! at once, shutdown wins and the loop exits without starting new work.

use vstd::prelude::*;

verus! {

/// The states an actor passes through. `Stopped` and `Failed` are terminal.
#[derive(Clone, Copy, PartialEq, Eq, Structural, Debug)]
pub enum ActorState {
    Starting,
    Running,
    Draining,
    Stopped,
    Failed,
}

/// The events that drive the lifecycle state machine.
#[derive(Clone, Copy, PartialEq, Eq, Structural, Debug)]
pub enum LifecycleEvent {
    /// The actor's task has been scheduled and its loop is entered.
    Started,
    /// The shutdown signal was observed cancelled.
    CancelObserved,
    /// In-flight work dispatched before shutdown has completed.
    DrainFinished,
    /// An unrecoverable error was classified as fatal.
    FatalError,
}

/// The lifecycle transition relation:
/// `Starting -> Running -> (Draining on shutdown) -> Stopped`,
/// or `Running -> Failed` on an unrecoverable error.
/// Terminal states absorb every event.
pub open spec fn lifecycle_spec(s: ActorState, e: LifecycleEvent) -> ActorState {
    match s {
        ActorState::Starting => match e {
            LifecycleEvent::Started => ActorState::Running,
            LifecycleEvent::CancelObserved => ActorState::Stopped,
            LifecycleEvent::FatalError => ActorState::Failed,
            LifecycleEvent::DrainFinished => ActorState::Starting,
        },
        ActorState::Running => match e {
            LifecycleEvent::CancelObserved => ActorState::Draining,
            LifecycleEvent::FatalError => ActorState::Failed,
            _ => ActorState::Running,
        },
        ActorState::Draining => match e {
            LifecycleEvent::DrainFinished => ActorState::Stopped,
            _ => ActorState::Draining,
        },
        ActorState::Stopped => ActorState::Stopped,
        ActorState::Failed => ActorState::Failed,
    }
}

/// Executes one lifecycle transition.
pub fn lifecycle_step(s: ActorState, e: LifecycleEvent) -> (next: ActorState)
    ensures
        next == lifecycle_spec(s, e),
{
    match s {
        ActorState::Starting => match e {
            LifecycleEvent::Started => ActorState::Running,
            LifecycleEvent::CancelObserved => ActorState::Stopped,
            LifecycleEvent::FatalError => ActorState::Failed,
            LifecycleEvent::DrainFinished => ActorState::Starting,
        },
        ActorState::Running => match e {
            LifecycleEvent::CancelObserved => ActorState::Draining,
            LifecycleEvent::FatalError => ActorState::Failed,
            _ => ActorState::Running,
        },
        ActorState::Draining => match e {
            LifecycleEvent::DrainFinished => ActorState::Stopped,
            _ => ActorState::Draining,
        },
        ActorState::Stopped => ActorState::Stopped,
        ActorState::Failed => ActorState::Failed,
    }
}

/// Once an actor has stopped or failed it never runs again: every event
/// leaves a terminal state unchanged, so an actor exits at most once.
pub proof fn lemma_terminal_states_absorb(s: ActorState, e: LifecycleEvent)
    requires
        s is Stopped || s is Failed,
    ensures
        lifecycle_spec(s, e) == s,
{
}

/// What an actor's multi-wait observed on one loop iteration.
#[derive(Clone, Copy, PartialEq, Eq, Structural, Debug)]
pub enum Readiness {
    /// Only the shutdown signal is ready.
    ShutdownReady,
    /// Only the actor's own work condition is ready.
    WorkReady,
    /// Both became ready at the same time.
    BothReady,
}

/// The branch the loop body then takes.
#[derive(Clone, Copy, PartialEq, Eq, Structural, Debug)]
pub enum Branch {
    Shutdown,
    Work,
}

/// The documented priority rule of the select: shutdown wins ties, and work
/// is started only when shutdown is not ready at all.
pub fn select_branch(r: Readiness) -> (b: Branch)
    ensures
        b is Shutdown <==> (r is ShutdownReady || r is BothReady),
        b is Work <==> r is WorkReady,
{
    match r {
        Readiness::ShutdownReady => Branch::Shutdown,
        Readiness::BothReady => Branch::Shutdown,
        Readiness::WorkReady => Branch::Work,
    }
}

/// Failures that are fatal to a single actor.
#[derive(Clone, Copy, PartialEq, Eq, Structural, Debug)]
pub enum ActorFailure {
    /// A subscribed topic reported permanently closed.
    ChannelClosed,
}

/// What one loop iteration asks of the scheduler that drives the actor.
#[derive(Clone, Copy, PartialEq, Eq, Structural, Debug)]
pub enum StepOutcome {
    /// Go straight to the next iteration.
    Continue,
    /// Nothing was ready; wait until the next tick or message.
    Idle,
    /// A transient failure: wait this many seconds before the next attempt.
    Backoff(u64),
    /// The actor is done; it exits with success.
    StopClean,
    /// The actor hit a fatal failure and exits reporting it.
    StopFailed(ActorFailure),
}

/// The uniform contract every worker implements: it can always be asked to
/// shut down, and observing shutdown ends it cleanly, in the `Stopped` state.
pub trait Actor {
    /// The lifecycle state the actor is in.
    spec fn state(&self) -> ActorState;

    /// Enters the actor's loop.
    fn begin(&mut self)
        requires
            old(self).state() is Starting,
        ensures
            final(self).state() is Running,
    ;

    /// Reacts to the shutdown signal: a clean stop, never an error.
    fn on_cancelled(&mut self) -> (r: StepOutcome)
        ensures
            r is StopClean,
            final(self).state() is Stopped,
    ;
}

} // verus!
