//! The market-data worker: it subscribes to market-data requests and answers
//! each one by publishing a snapshot for the requested market.

use vstd::prelude::*;

use crate::bus::{BroadcastTopic, Cursor, RecvModel, RecvOutcome, Topic, recv_spec};
use crate::lifecycle::{Actor, ActorFailure, ActorState, StepOutcome};
use crate::messages::{MarketDataRequest, MarketDataRequestV, MarketDataSnap, MarketDataSnapV};

verus! {

/// The snapshot published in answer to one request: it names the requested
/// market; the quote fields are filled by the data source and start empty.
pub open spec fn snap_for(req: MarketDataRequestV) -> MarketDataSnapV {
    MarketDataSnapV {
        market_id: req.market_id,
        book_ts_ms: 0,
        best_bid: 0,
        best_ask: 0,
        bid_size: 0,
        ask_size: 0,
    }
}

/// The market-data worker. It owns a private cursor into the request topic.
pub struct MarketDataActor {
    /// Where the actor is in its lifecycle.
    pub st: ActorState,
    /// The actor's read position in the request topic.
    pub cursor: Cursor,
}

impl MarketDataActor {
    /// Builds the worker and takes its subscription: the cursor starts at
    /// "now", so only requests published from here on are answered.
    pub fn new(reqs: &BroadcastTopic<MarketDataRequest>) -> (a: Self)
        requires
            reqs.wf(),
        ensures
            a.st is Starting,
            a.cursor.pos as nat == reqs@.history.len(),
    {
        MarketDataActor { st: ActorState::Starting, cursor: reqs.subscribe() }
    }

    /// Builds the answer to one request.
    pub fn make_snap(req: MarketDataRequest) -> (s: MarketDataSnap)
        ensures
            s@ == snap_for(req@),
    {
        MarketDataSnap {
            market_id: req.market_id,
            book_ts_ms: 0,
            best_bid: 0,
            best_ask: 0,
            bid_size: 0,
            ask_size: 0,
        }
    }

    /// The decision for one event on the request stream, however the stream
    /// is carried: a request is answered with its snapshot, a lag report is
    /// tolerated, quiet means wait, and a closed stream is fatal to this
    /// actor alone.
    pub fn on_event(&mut self, ev: RecvOutcome<MarketDataRequest>) -> (r: (
        Option<MarketDataSnap>,
        StepOutcome,
    ))
        requires
            old(self).st is Running,
        ensures
            final(self).cursor == old(self).cursor,
            ev matches RecvOutcome::Received(req) ==> r.1 is Continue && final(self).st is Running
                && (r.0 matches Some(s) && s@ == snap_for(req@)),
            ev is Lagged ==> r.0 is None && r.1 is Continue && final(self).st is Running,
            ev is Pending ==> r.0 is None && r.1 is Idle && final(self).st is Running,
            ev is Closed ==> r.0 is None && r.1 == StepOutcome::StopFailed(
                ActorFailure::ChannelClosed,
            ) && final(self).st is Failed,
    {
        match ev {
            RecvOutcome::Received(req) => {
                let snap = Self::make_snap(req);
                (Some(snap), StepOutcome::Continue)
            },
            RecvOutcome::Lagged(_) => (None, StepOutcome::Continue),
            RecvOutcome::Pending => (None, StepOutcome::Idle),
            RecvOutcome::Closed => {
                self.st = ActorState::Failed;
                (None, StepOutcome::StopFailed(ActorFailure::ChannelClosed))
            },
        }
    }

    /// One loop iteration. Shutdown is checked first and wins ties: the
    /// actor then stops cleanly without reading further. Otherwise the next
    /// request is answered on the snapshot topic; a lag report is tolerated
    /// and skipped past; a closed request topic is fatal to this actor only.
    pub fn poll(
        &mut self,
        reqs: &BroadcastTopic<MarketDataRequest>,
        out: &mut BroadcastTopic<MarketDataSnap>,
        cancelled: bool,
    ) -> (r: StepOutcome)
        requires
            old(self).st is Running,
            reqs.wf(),
            old(out).wf(),
            !old(out)@.closed,
            old(out)@.history.len() < usize::MAX,
        ensures
            final(out).wf(),
            final(out)@.cap == old(out)@.cap,
            !final(out)@.closed,
            cancelled ==> {
                &&& r is StopClean
                &&& final(self).st is Stopped
                &&& final(out)@.history == old(out)@.history
                &&& final(self).cursor == old(self).cursor
            },
            !cancelled ==> {
                let step = recv_spec(reqs@, old(self).cursor.pos as nat);
                &&& final(self).cursor.pos as nat == step.1
                &&& (step.0 matches RecvModel::Received(req) ==> r is Continue
                    && final(self).st is Running
                    && final(out)@.history == old(out)@.history.push(snap_for(req)))
                &&& (step.0 is Lagged ==> r is Continue && final(self).st is Running
                    && final(out)@.history == old(out)@.history)
                &&& (step.0 is Pending ==> r is Idle && final(self).st is Running
                    && final(out)@.history == old(out)@.history)
                &&& (step.0 is Closed ==> r == StepOutcome::StopFailed(ActorFailure::ChannelClosed)
                    && final(self).st is Failed && final(out)@.history == old(out)@.history)
            },
    {
        if cancelled {
            self.st = ActorState::Stopped;
            return StepOutcome::StopClean;
        }
        let ev = reqs.recv(&mut self.cursor);
        let (reply, outcome) = self.on_event(ev);
        match reply {
            Some(snap) => {
                let _ = out.publish(snap);
            },
            None => {},
        }
        outcome
    }
}

impl Actor for MarketDataActor {
    open spec fn state(&self) -> ActorState {
        self.st
    }

    fn begin(&mut self) {
        self.st = ActorState::Running;
    }

    fn on_cancelled(&mut self) -> (r: StepOutcome) {
        self.st = ActorState::Stopped;
        StepOutcome::StopClean
    }
}

} // verus!
