use polymind::lifecycle::{
    lifecycle_step, select_branch, ActorState, Branch, LifecycleEvent, Readiness,
};
use polymind::shutdown::ShutdownSignal;
use polymind::supervisor::{Supervisor, TaskOutcome};

#[test]
fn cancelling_twice_equals_cancelling_once() {
    let mut signal = ShutdownSignal::new();
    assert!(!signal.is_cancelled());
    signal.cancel();
    assert!(signal.is_cancelled());
    signal.cancel();
    assert!(signal.is_cancelled());
}

#[test]
fn cancellation_is_idempotent_across_holders() {
    let mut sup = Supervisor::new(2);
    sup.request_shutdown();
    assert!(sup.signal.is_cancelled());
    sup.request_shutdown();
    assert!(sup.signal.is_cancelled());
    assert!(sup.exit_report().is_none());
}

#[test]
fn terminal_states_absorb_every_event() {
    for event in [
        LifecycleEvent::Started,
        LifecycleEvent::CancelObserved,
        LifecycleEvent::DrainFinished,
        LifecycleEvent::FatalError,
    ] {
        assert_eq!(lifecycle_step(ActorState::Stopped, event), ActorState::Stopped);
        assert_eq!(lifecycle_step(ActorState::Failed, event), ActorState::Failed);
    }
}

#[test]
fn lifecycle_follows_the_documented_shape() {
    let s = ActorState::Starting;
    let s = lifecycle_step(s, LifecycleEvent::Started);
    assert_eq!(s, ActorState::Running);
    let s = lifecycle_step(s, LifecycleEvent::CancelObserved);
    assert_eq!(s, ActorState::Draining);
    let s = lifecycle_step(s, LifecycleEvent::DrainFinished);
    assert_eq!(s, ActorState::Stopped);
    assert_eq!(
        lifecycle_step(ActorState::Running, LifecycleEvent::FatalError),
        ActorState::Failed
    );
}

#[test]
fn shutdown_wins_ties_in_the_select() {
    assert_eq!(select_branch(Readiness::ShutdownReady), Branch::Shutdown);
    assert_eq!(select_branch(Readiness::BothReady), Branch::Shutdown);
    assert_eq!(select_branch(Readiness::WorkReady), Branch::Work);
}

#[test]
fn supervisor_waits_for_every_outcome_before_exiting() {
    let mut sup = Supervisor::new(3);
    assert!(sup.exit_report().is_none());
    sup.record_outcome(0, TaskOutcome::Clean);
    assert!(sup.exit_report().is_none());
    sup.request_shutdown();
    sup.record_outcome(2, TaskOutcome::Crashed);
    assert!(sup.exit_report().is_none());
    sup.record_outcome(1, TaskOutcome::Errored);
    let report = sup.exit_report().expect("every task has finished");
    assert_eq!(
        report,
        vec![TaskOutcome::Clean, TaskOutcome::Errored, TaskOutcome::Crashed]
    );
}

#[test]
fn failures_and_crashes_do_not_abort_the_drain() {
    let mut sup = Supervisor::new(2);
    sup.record_outcome(0, TaskOutcome::Crashed);
    assert!(sup.exit_report().is_none());
    sup.record_outcome(1, TaskOutcome::Clean);
    assert!(sup.exit_report().is_some());
}
