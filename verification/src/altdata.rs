//! The external-market actor: on every tick it retrieves the full list of
//! active events from the catalogue — page by page, with a fixed page size,
//! until a short or empty page — and fans the events out on the event topic.
//! A failed retrieval is reported and answered with a fixed backoff before
//! the actor resumes ticking.

use vstd::prelude::*;

use crate::bus::BroadcastTopic;
use crate::ingest::{fan_out_publish, FetchError, RETRY_BACKOFF_SECS};
use crate::lifecycle::{Actor, ActorState, StepOutcome};
use crate::messages::PolyMarketEvent;

verus! {

/// The external-market actor.
pub struct AltDataActor {
    /// Where the actor is in its lifecycle.
    pub st: ActorState,
}

impl AltDataActor {
    /// Builds the actor.
    pub fn new() -> (a: Self)
        ensures
            a.st is Starting,
    {
        AltDataActor { st: ActorState::Starting }
    }

    /// One tick of the actor: the events of a successful retrieval are
    /// fanned out on the event topic, every one of them; a failed retrieval
    /// is reported and answered with a fixed backoff before the next tick —
    /// the actor keeps running either way.
    pub fn on_tick(
        &mut self,
        out: &mut BroadcastTopic<PolyMarketEvent>,
        fetched: Result<Vec<PolyMarketEvent>, FetchError>,
    ) -> (r: StepOutcome)
        requires
            old(self).st is Running,
            old(out).wf(),
            !old(out)@.closed,
            old(out)@.history.len() + (match fetched {
                Ok(events) => events@.len(),
                Err(_) => 0,
            }) <= usize::MAX,
        ensures
            final(self).st is Running,
            final(out).wf(),
            !final(out)@.closed,
            final(out)@.cap == old(out)@.cap,
            fetched matches Ok(events) ==> final(out)@.history == old(out)@.history
                + events@.map_values(|e: PolyMarketEvent| e@) && r is Continue,
            fetched is Err ==> final(out)@.history == old(out)@.history && r
                == StepOutcome::Backoff(RETRY_BACKOFF_SECS),
    {
        match fetched {
            Ok(events) => {
                let _ = fan_out_publish(out, events);
                StepOutcome::Continue
            },
            Err(_) => StepOutcome::Backoff(RETRY_BACKOFF_SECS),
        }
    }
}

impl Actor for AltDataActor {
    open spec fn state(&self) -> ActorState {
        self.st
    }

    fn begin(&mut self) {
        self.st = ActorState::Running;
    }

    fn on_cancelled(&mut self) -> (r: StepOutcome) {
        self.st = ActorState::Stopped;
        StepOutcome::StopClean
    }
}

} // verus!
