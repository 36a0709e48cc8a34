//! The execution worker: it subscribes to order requests and answers each
//! one by publishing a fill report for that order.

use vstd::prelude::*;

use crate::bus::{BroadcastTopic, Cursor, RecvModel, RecvOutcome, Topic, recv_spec};
use crate::lifecycle::{Actor, ActorFailure, ActorState, StepOutcome};
use crate::messages::{Execution, ExecutionV, Order, OrderV};

verus! {

/// The fill report published in answer to one order: it names the order and
/// its market; the fill quantities come from the venue and start empty.
pub open spec fn fill_for(ord: OrderV) -> ExecutionV {
    ExecutionV {
        client_order_id: ord.client_order_id,
        market_id: ord.market_id,
        avg_px: 0,
        filled: 0,
        fee: 0,
        ts_ms: 0,
    }
}

/// The execution worker. It owns a private cursor into the order topic.
pub struct ExecutionActor {
    /// Where the actor is in its lifecycle.
    pub st: ActorState,
    /// The actor's read position in the order topic.
    pub cursor: Cursor,
}

impl ExecutionActor {
    /// Builds the worker and takes its subscription: the cursor starts at
    /// "now", so only orders published from here on are answered.
    pub fn new(orders: &BroadcastTopic<Order>) -> (a: Self)
        requires
            orders.wf(),
        ensures
            a.st is Starting,
            a.cursor.pos as nat == orders@.history.len(),
    {
        ExecutionActor { st: ActorState::Starting, cursor: orders.subscribe() }
    }

    /// Builds the answer to one order.
    pub fn make_fill(ord: Order) -> (e: Execution)
        ensures
            e@ == fill_for(ord@),
    {
        Execution {
            client_order_id: ord.client_order_id,
            market_id: ord.market_id,
            avg_px: 0,
            filled: 0,
            fee: 0,
            ts_ms: 0,
        }
    }

    /// The decision for one event on the order stream, however the stream
    /// is carried: an order is answered with its fill report, a lag report
    /// is tolerated, quiet means wait, and a closed stream is fatal to this
    /// actor alone.
    pub fn on_event(&mut self, ev: RecvOutcome<Order>) -> (r: (Option<Execution>, StepOutcome))
        requires
            old(self).st is Running,
        ensures
            final(self).cursor == old(self).cursor,
            ev matches RecvOutcome::Received(ord) ==> r.1 is Continue && final(self).st is Running
                && (r.0 matches Some(e) && e@ == fill_for(ord@)),
            ev is Lagged ==> r.0 is None && r.1 is Continue && final(self).st is Running,
            ev is Pending ==> r.0 is None && r.1 is Idle && final(self).st is Running,
            ev is Closed ==> r.0 is None && r.1 == StepOutcome::StopFailed(
                ActorFailure::ChannelClosed,
            ) && final(self).st is Failed,
    {
        match ev {
            RecvOutcome::Received(ord) => {
                let fill = Self::make_fill(ord);
                (Some(fill), StepOutcome::Continue)
            },
            RecvOutcome::Lagged(_) => (None, StepOutcome::Continue),
            RecvOutcome::Pending => (None, StepOutcome::Idle),
            RecvOutcome::Closed => {
                self.st = ActorState::Failed;
                (None, StepOutcome::StopFailed(ActorFailure::ChannelClosed))
            },
        }
    }

    /// One loop iteration. Shutdown is checked first and wins ties: the
    /// actor then stops cleanly without reading further. Otherwise the next
    /// order is answered on the executions topic; a lag report is tolerated
    /// and skipped past; a closed order topic is fatal to this actor only.
    pub fn poll(
        &mut self,
        orders: &BroadcastTopic<Order>,
        out: &mut BroadcastTopic<Execution>,
        cancelled: bool,
    ) -> (r: StepOutcome)
        requires
            old(self).st is Running,
            orders.wf(),
            old(out).wf(),
            !old(out)@.closed,
            old(out)@.history.len() < usize::MAX,
        ensures
            final(out).wf(),
            final(out)@.cap == old(out)@.cap,
            !final(out)@.closed,
            cancelled ==> {
                &&& r is StopClean
                &&& final(self).st is Stopped
                &&& final(out)@.history == old(out)@.history
                &&& final(self).cursor == old(self).cursor
            },
            !cancelled ==> {
                let step = recv_spec(orders@, old(self).cursor.pos as nat);
                &&& final(self).cursor.pos as nat == step.1
                &&& (step.0 matches RecvModel::Received(ord) ==> r is Continue
                    && final(self).st is Running
                    && final(out)@.history == old(out)@.history.push(fill_for(ord)))
                &&& (step.0 is Lagged ==> r is Continue && final(self).st is Running
                    && final(out)@.history == old(out)@.history)
                &&& (step.0 is Pending ==> r is Idle && final(self).st is Running
                    && final(out)@.history == old(out)@.history)
                &&& (step.0 is Closed ==> r == StepOutcome::StopFailed(ActorFailure::ChannelClosed)
                    && final(self).st is Failed && final(out)@.history == old(out)@.history)
            },
    {
        if cancelled {
            self.st = ActorState::Stopped;
            return StepOutcome::StopClean;
        }
        let ev = orders.recv(&mut self.cursor);
        let (reply, outcome) = self.on_event(ev);
        match reply {
            Some(fill) => {
                let _ = out.publish(fill);
            },
            None => {},
        }
        outcome
    }
}

impl Actor for ExecutionActor {
    open spec fn state(&self) -> ActorState {
        self.st
    }

    fn begin(&mut self) {
        self.st = ActorState::Running;
    }

    fn on_cancelled(&mut self) -> (r: StepOutcome) {
        self.st = ActorState::Stopped;
        StepOutcome::StopClean
    }
}

} // verus!
