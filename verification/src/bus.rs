//! Broadcast topics and the bus that owns them.
//!
//! A topic carries one message type from publishers to every subscriber.
//! Publishing never blocks and never waits for subscribers: each subscriber
//! owns an independent cursor into the topic's message history, and the topic
//! retains only the most recent `cap` messages. A cursor that falls further
//! behind than that is told how many messages it missed and resumes from the
//! oldest retained one; it is never able to stall the publisher or the other
//! cursors.

use vstd::prelude::*;

use crate::messages::{
    Execution, MarketDataRequest, MarketDataSnap, Message, Order, PolyMarketEvent, RawNews,
};

verus! {

/// The number of messages each topic of the bus retains for slow subscribers.
pub const DEFAULT_TOPIC_CAPACITY: usize = 1024;

/// The model of a topic: everything ever published to it, in publish order,
/// its retention capacity, and whether it has been closed.
pub struct TopicModel<V> {
    pub history: Seq<V>,
    pub cap: nat,
    pub closed: bool,
}

/// The model of a topic that was just created with capacity `cap`.
pub open spec fn fresh_topic<V>(cap: nat) -> TopicModel<V> {
    TopicModel { history: Seq::empty(), cap, closed: false }
}

/// The position of the oldest message still retained: everything published
/// earlier has been dropped to keep the topic within its capacity.
pub open spec fn first_retained(len: nat, cap: nat) -> nat {
    if len <= cap {
        0
    } else {
        (len - cap) as nat
    }
}

/// What one read of a cursor observes.
pub enum RecvOutcome<T> {
    /// The next message, in publish order.
    Received(T),
    /// The cursor fell behind and this many messages were dropped for it;
    /// it now continues from the oldest retained message.
    Lagged(usize),
    /// Nothing new yet; the reader would wait.
    Pending,
    /// The topic is closed and everything retained has been read.
    Closed,
}

/// The model of a read outcome.
pub enum RecvModel<V> {
    Received(V),
    Lagged(nat),
    Pending,
    Closed,
}

impl<T: View> View for RecvOutcome<T> {
    type V = RecvModel<T::V>;

    open spec fn view(&self) -> RecvModel<T::V> {
        match self {
            RecvOutcome::Received(m) => RecvModel::Received(m@),
            RecvOutcome::Lagged(n) => RecvModel::Lagged(*n as nat),
            RecvOutcome::Pending => RecvModel::Pending,
            RecvOutcome::Closed => RecvModel::Closed,
        }
    }
}

/// What one read at position `pos` of a topic in state `m` observes, and the
/// position the cursor is left at.
pub open spec fn recv_spec<V>(m: TopicModel<V>, pos: nat) -> (RecvModel<V>, nat) {
    let d = first_retained(m.history.len(), m.cap);
    if pos < d {
        (RecvModel::Lagged((d - pos) as nat), d)
    } else if pos < m.history.len() {
        (RecvModel::Received(m.history[pos as int]), (pos + 1) as nat)
    } else if m.closed {
        (RecvModel::Closed, pos)
    } else {
        (RecvModel::Pending, pos)
    }
}

/// A subscriber's private read position into one topic's history.
pub struct Cursor {
    /// How many messages of the topic's history this subscriber is past.
    pub pos: usize,
}

/// The error a publish could report. The broadcast topic never does: absence
/// of subscribers is not an error, the message is simply dropped.
#[derive(Clone, Copy, PartialEq, Eq, Structural, Debug)]
pub enum TopicError {
    Closed,
}

/// The capability every topic offers its users: broadcast publishing that
/// never blocks and never fails, and independent subscription cursors that
/// start at "now". The contract is stated over the topic's model, so every
/// implementation carries the same semantics.
pub trait Topic<T: Message>: Sized {
    /// The topic's model: its full history, capacity and closed flag.
    spec fn model(&self) -> TopicModel<T::V>;

    /// The topic's internal state agrees with its model.
    spec fn inv(&self) -> bool;

    /// Publishes a message to all subscribers: the history grows by exactly
    /// this message, and the call succeeds even with zero subscribers.
    fn publish(&mut self, msg: T) -> (r: Result<(), TopicError>)
        requires
            old(self).inv(),
            !old(self).model().closed,
            old(self).model().history.len() < usize::MAX,
        ensures
            final(self).inv(),
            final(self).model().history == old(self).model().history.push(msg@),
            final(self).model().cap == old(self).model().cap,
            !final(self).model().closed,
            r is Ok,
    ;

    /// Subscribes to the stream: the new cursor is independent and starts at
    /// "now", so it receives only what is published after this call.
    fn subscribe(&self) -> (c: Cursor)
        requires
            self.inv(),
        ensures
            c.pos as nat == self.model().history.len(),
    ;
}

/// A topic with broadcast delivery: one-to-many, lossy for a subscriber that
/// falls more than `cap` messages behind, never blocking for the publisher.
pub struct BroadcastTopic<T: Message> {
    buf: Vec<T>,
    first: usize,
    cap: usize,
    closed: bool,
    hist: Ghost<Seq<T::V>>,
}

impl<T: Message> View for BroadcastTopic<T> {
    type V = TopicModel<T::V>;

    closed spec fn view(&self) -> TopicModel<T::V> {
        TopicModel { history: self.hist@, cap: self.cap as nat, closed: self.closed }
    }
}

impl<T: Message> BroadcastTopic<T> {
    /// The topic's internal state matches its model: the buffer holds exactly
    /// the retained suffix of the history.
    pub closed spec fn wf(&self) -> bool {
        &&& self.cap >= 1
        &&& self.hist@.len() <= usize::MAX
        &&& self.first as nat == first_retained(self.hist@.len(), self.cap as nat)
        &&& self.buf@.len() == self.hist@.len() - self.first
        &&& forall|i: int|
            0 <= i < self.buf@.len() ==> self.buf@[i]@ == self.hist@[self.first + i]
    }

    /// Creates a topic that retains the latest `cap` messages per subscriber.
    pub fn with_capacity(cap: usize) -> (t: Self)
        requires
            cap >= 1,
        ensures
            t.wf(),
            t@ == fresh_topic::<T::V>(cap as nat),
    {
        BroadcastTopic { buf: Vec::new(), first: 0, cap, closed: false, hist: Ghost(Seq::empty()) }
    }

    /// How many messages have ever been published to this topic.
    pub fn published_len(&self) -> (n: usize)
        requires
            self.wf(),
        ensures
            n as nat == self@.history.len(),
    {
        self.first + self.buf.len()
    }

    /// Reads the next message for cursor `c`, reporting a skip count when the
    /// cursor lagged past the retained window, and `Pending`/`Closed` when it
    /// is fully caught up.
    pub fn recv(&self, c: &mut Cursor) -> (r: RecvOutcome<T>)
        requires
            self.wf(),
        ensures
            r@ == recv_spec(self@, old(c).pos as nat).0,
            final(c).pos as nat == recv_spec(self@, old(c).pos as nat).1,
    {
        if c.pos < self.first {
            let n = self.first - c.pos;
            c.pos = self.first;
            RecvOutcome::Lagged(n)
        } else {
            let idx = c.pos - self.first;
            if idx < self.buf.len() {
                let m = self.buf[idx].dup();
                c.pos = c.pos + 1;
                RecvOutcome::Received(m)
            } else if self.closed {
                RecvOutcome::Closed
            } else {
                RecvOutcome::Pending
            }
        }
    }

    /// Closes the topic: no further publishes; every cursor that catches up
    /// observes `Closed`.
    pub fn close(&mut self)
        requires
            old(self).wf(),
        ensures
            final(self).wf(),
            final(self)@.history == old(self)@.history,
            final(self)@.cap == old(self)@.cap,
            final(self)@.closed,
    {
        self.closed = true;
    }
}

impl<T: Message> Topic<T> for BroadcastTopic<T> {
    open spec fn model(&self) -> TopicModel<T::V> {
        self@
    }

    open spec fn inv(&self) -> bool {
        self.wf()
    }

    /// Enqueues `msg` for every current subscriber and returns success even
    /// when there is no subscriber at all (the value is then simply dropped).
    /// Never blocks and never waits on slow subscribers: if the topic is at
    /// capacity, the oldest retained message is dropped instead.
    fn publish(&mut self, msg: T) -> (r: Result<(), TopicError>) {
        let ghost mv = msg@;
        if self.buf.len() == self.cap {
            self.buf.remove(0);
            self.first = self.first + 1;
        }
        self.buf.push(msg);
        proof {
            self.hist@ = self.hist@.push(mv);
        }
        Ok(())
    }

    /// Hands out a new independent cursor that starts at "now": it will
    /// observe every message published after this call and none before.
    fn subscribe(&self) -> (c: Cursor) {
        Cursor { pos: self.first + self.buf.len() }
    }
}

/// Ordered delivery: a subscriber that subscribed at position `sub` and whose
/// backlog never exceeded the topic's capacity observes every later message,
/// in exactly the publish order.
pub proof fn lemma_ordered_delivery<V>(m: TopicModel<V>, sub: nat)
    requires
        m.history.len() - sub <= m.cap,
    ensures
        forall|i: nat|
            sub <= i < m.history.len() ==> #[trigger] recv_spec(m, i) == (
            RecvModel::Received(m.history[i as int]),
            (i + 1) as nat,
            ),
{
}

/// Lag reporting: when `cap + k` messages were published past a cursor before
/// it reads, its next read reports exactly `k` skipped messages, and the read
/// after that receives the oldest retained message — the cursor is never
/// stalled for good.
pub proof fn lemma_lag_reporting<V>(m: TopicModel<V>, sub: nat, k: nat)
    requires
        m.cap >= 1,
        k >= 1,
        m.history.len() == sub + m.cap + k,
    ensures
        recv_spec(m, sub).0 == RecvModel::<V>::Lagged(k),
        recv_spec(m, sub).1 == sub + k,
        recv_spec(m, (sub + k) as nat).0 == RecvModel::Received(
            m.history[(sub + k) as int],
        ),
{
}

/// Late subscription: a cursor taken at position `sub` never observes any
/// message published before `sub` — every received message sits at or past
/// the cursor's own position, and the position never moves back before `sub`.
pub proof fn lemma_late_subscription<V>(m: TopicModel<V>, sub: nat, pos: nat)
    requires
        sub <= pos,
    ensures
        recv_spec(m, pos).1 >= sub,
        recv_spec(m, pos).0 is Received ==> recv_spec(m, pos).0 == RecvModel::Received(
            m.history[pos as int],
        ) && pos >= sub,
{
}

/// The fixed set of topics every actor shares, one per message type,
/// constructed once at startup. No other component constructs topics.
pub struct Bus {
    pub raw_news: BroadcastTopic<RawNews>,
    pub polymarket_events: BroadcastTopic<PolyMarketEvent>,
    pub market_data_request: BroadcastTopic<MarketDataRequest>,
    pub market_data: BroadcastTopic<MarketDataSnap>,
    pub orders: BroadcastTopic<Order>,
    pub executions: BroadcastTopic<Execution>,
}

impl Bus {
    /// Every topic of the bus is in a state that matches its model.
    pub open spec fn wf(&self) -> bool {
        &&& self.raw_news.wf()
        &&& self.polymarket_events.wf()
        &&& self.market_data_request.wf()
        &&& self.market_data.wf()
        &&& self.orders.wf()
        &&& self.executions.wf()
    }

    /// Builds the bus: one topic per message type, each with the same
    /// retention capacity, each starting empty and open.
    pub fn new() -> (b: Bus)
        ensures
            b.wf(),
            b.raw_news@ == fresh_topic::<<RawNews as View>::V>(DEFAULT_TOPIC_CAPACITY as nat),
            b.polymarket_events@ == fresh_topic::<<PolyMarketEvent as View>::V>(
                DEFAULT_TOPIC_CAPACITY as nat,
            ),
            b.market_data_request@ == fresh_topic::<<MarketDataRequest as View>::V>(
                DEFAULT_TOPIC_CAPACITY as nat,
            ),
            b.market_data@ == fresh_topic::<<MarketDataSnap as View>::V>(
                DEFAULT_TOPIC_CAPACITY as nat,
            ),
            b.orders@ == fresh_topic::<<Order as View>::V>(DEFAULT_TOPIC_CAPACITY as nat),
            b.executions@ == fresh_topic::<<Execution as View>::V>(DEFAULT_TOPIC_CAPACITY as nat),
    {
        let cap = DEFAULT_TOPIC_CAPACITY;
        Bus {
            raw_news: BroadcastTopic::with_capacity(cap),
            polymarket_events: BroadcastTopic::with_capacity(cap),
            market_data_request: BroadcastTopic::with_capacity(cap),
            market_data: BroadcastTopic::with_capacity(cap),
            orders: BroadcastTopic::with_capacity(cap),
            executions: BroadcastTopic::with_capacity(cap),
        }
    }
}

} // verus!
