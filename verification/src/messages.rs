//! The domain messages carried by the bus.
//!
//! A message, once published, is never mutated: every subscriber observes the
//! same logical value. The bus transports these values without interpreting
//! them; prices and sizes are carried as raw 32-bit patterns that only the
//! endpoints of the bus give meaning to.

use vstd::prelude::*;

verus! {

/// A value that can travel through a topic: it can be duplicated for each
/// subscriber without changing its logical content.
pub trait Message: View + Sized {
    /// Hands out a copy that is, at the level of the message's model,
    /// the same value.
    fn dup(&self) -> (r: Self)
        ensures
            r@ == self@,
    ;
}

/// The model of a [`RawNews`] value.
pub struct RawNewsV {
    pub url: Seq<char>,
    pub title: Seq<char>,
    pub description: Seq<char>,
    pub feed: Seq<char>,
    pub published: Option<i64>,
    pub labels: Seq<Seq<char>>,
}

/// One news item, as handed over by a feed or scrape producer.
/// `published` is the publication instant in milliseconds since the Unix
/// epoch, when the source carried one that could be read.
#[derive(Debug, PartialEq, Eq)]
pub struct RawNews {
    pub url: String,
    pub title: String,
    pub description: String,
    pub feed: String,
    pub published: Option<i64>,
    pub labels: Vec<String>,
}

impl View for RawNews {
    type V = RawNewsV;

    open spec fn view(&self) -> RawNewsV {
        RawNewsV {
            url: self.url@,
            title: self.title@,
            description: self.description@,
            feed: self.feed@,
            published: self.published,
            labels: self.labels.deep_view(),
        }
    }
}

impl DeepView for RawNews {
    type V = RawNewsV;

    open spec fn deep_view(&self) -> RawNewsV {
        self.view()
    }
}

/// Copies a list of strings, keeping every element's content.
fn clone_strings(v: &Vec<String>) -> (r: Vec<String>)
    ensures
        r.deep_view() == v.deep_view(),
{
    let mut r: Vec<String> = Vec::new();
    let mut i: usize = 0;
    while i < v.len()
        invariant
            i <= v.len(),
            r.len() == i,
            forall|j: int| 0 <= j < i ==> r@[j] == v@[j],
        decreases v.len() - i,
    {
        r.push(v[i].clone());
        i = i + 1;
    }
    proof {
        assert(r.deep_view() =~= v.deep_view());
    }
    r
}

impl Message for RawNews {
    fn dup(&self) -> (r: Self)
        ensures
            r@ == self@,
    {
        RawNews {
            url: self.url.clone(),
            title: self.title.clone(),
            description: self.description.clone(),
            feed: self.feed.clone(),
            published: self.published,
            labels: clone_strings(&self.labels),
        }
    }
}

/// The model of a [`MarketDataRequest`].
pub struct MarketDataRequestV {
    pub market_id: Seq<char>,
}

/// Asks the market-data worker for a fresh snapshot of one market.
#[derive(Debug, PartialEq, Eq)]
pub struct MarketDataRequest {
    pub market_id: String,
}

impl View for MarketDataRequest {
    type V = MarketDataRequestV;

    open spec fn view(&self) -> MarketDataRequestV {
        MarketDataRequestV { market_id: self.market_id@ }
    }
}

impl Message for MarketDataRequest {
    fn dup(&self) -> (r: Self)
        ensures
            r@ == self@,
    {
        MarketDataRequest { market_id: self.market_id.clone() }
    }
}

/// The model of a [`MarketDataSnap`].
pub struct MarketDataSnapV {
    pub market_id: Seq<char>,
    pub book_ts_ms: i64,
    pub best_bid: u32,
    pub best_ask: u32,
    pub bid_size: u32,
    pub ask_size: u32,
}

/// A point-in-time book snapshot for one market. The four quote fields carry
/// 32-bit price and size patterns that the bus does not interpret.
#[derive(Debug, PartialEq, Eq)]
pub struct MarketDataSnap {
    pub market_id: String,
    pub book_ts_ms: i64,
    pub best_bid: u32,
    pub best_ask: u32,
    pub bid_size: u32,
    pub ask_size: u32,
}

impl View for MarketDataSnap {
    type V = MarketDataSnapV;

    open spec fn view(&self) -> MarketDataSnapV {
        MarketDataSnapV {
            market_id: self.market_id@,
            book_ts_ms: self.book_ts_ms,
            best_bid: self.best_bid,
            best_ask: self.best_ask,
            bid_size: self.bid_size,
            ask_size: self.ask_size,
        }
    }
}

impl Message for MarketDataSnap {
    fn dup(&self) -> (r: Self)
        ensures
            r@ == self@,
    {
        MarketDataSnap {
            market_id: self.market_id.clone(),
            book_ts_ms: self.book_ts_ms,
            best_bid: self.best_bid,
            best_ask: self.best_ask,
            bid_size: self.bid_size,
            ask_size: self.ask_size,
        }
    }
}

/// The model of an [`Order`].
pub struct OrderV {
    pub client_order_id: Seq<char>,
    pub market_id: Seq<char>,
    pub price: u32,
    pub size: u32,
}

/// A request to place one order. `price` and `size` carry 32-bit patterns
/// that the bus does not interpret.
#[derive(Debug, PartialEq, Eq)]
pub struct Order {
    pub client_order_id: String,
    pub market_id: String,
    pub price: u32,
    pub size: u32,
}

impl View for Order {
    type V = OrderV;

    open spec fn view(&self) -> OrderV {
        OrderV {
            client_order_id: self.client_order_id@,
            market_id: self.market_id@,
            price: self.price,
            size: self.size,
        }
    }
}

impl Message for Order {
    fn dup(&self) -> (r: Self)
        ensures
            r@ == self@,
    {
        Order {
            client_order_id: self.client_order_id.clone(),
            market_id: self.market_id.clone(),
            price: self.price,
            size: self.size,
        }
    }
}

/// The model of an [`Execution`].
pub struct ExecutionV {
    pub client_order_id: Seq<char>,
    pub market_id: Seq<char>,
    pub avg_px: u32,
    pub filled: u32,
    pub fee: u32,
    pub ts_ms: i64,
}

/// A fill report for one order. The three quantity fields carry 32-bit
/// patterns that the bus does not interpret.
#[derive(Debug, PartialEq, Eq)]
pub struct Execution {
    pub client_order_id: String,
    pub market_id: String,
    pub avg_px: u32,
    pub filled: u32,
    pub fee: u32,
    pub ts_ms: i64,
}

impl View for Execution {
    type V = ExecutionV;

    open spec fn view(&self) -> ExecutionV {
        ExecutionV {
            client_order_id: self.client_order_id@,
            market_id: self.market_id@,
            avg_px: self.avg_px,
            filled: self.filled,
            fee: self.fee,
            ts_ms: self.ts_ms,
        }
    }
}

impl Message for Execution {
    fn dup(&self) -> (r: Self)
        ensures
            r@ == self@,
    {
        Execution {
            client_order_id: self.client_order_id.clone(),
            market_id: self.market_id.clone(),
            avg_px: self.avg_px,
            filled: self.filled,
            fee: self.fee,
            ts_ms: self.ts_ms,
        }
    }
}

/// The model of a [`PolyMarketMarket`].
pub struct PolyMarketMarketV {
    pub id: Seq<char>,
}

/// One tradable market inside an external-market event.
#[derive(Debug, PartialEq, Eq)]
pub struct PolyMarketMarket {
    pub id: String,
}

impl View for PolyMarketMarket {
    type V = PolyMarketMarketV;

    open spec fn view(&self) -> PolyMarketMarketV {
        PolyMarketMarketV { id: self.id@ }
    }
}

impl DeepView for PolyMarketMarket {
    type V = PolyMarketMarketV;

    open spec fn deep_view(&self) -> PolyMarketMarketV {
        self.view()
    }
}

impl Message for PolyMarketMarket {
    fn dup(&self) -> (r: Self)
        ensures
            r@ == self@,
    {
        PolyMarketMarket { id: self.id.clone() }
    }
}

/// The model of a [`PolyMarketEvent`].
pub struct PolyMarketEventV {
    pub id: Seq<char>,
    pub title: Option<Seq<char>>,
    pub description: Option<Seq<char>>,
    pub markets: Option<Seq<PolyMarketMarketV>>,
}

/// One event fetched from the external-market catalogue.
#[derive(Debug, PartialEq, Eq)]
pub struct PolyMarketEvent {
    pub id: String,
    pub title: Option<String>,
    pub description: Option<String>,
    pub markets: Option<Vec<PolyMarketMarket>>,
}

impl View for PolyMarketEvent {
    type V = PolyMarketEventV;

    open spec fn view(&self) -> PolyMarketEventV {
        PolyMarketEventV {
            id: self.id@,
            title: match self.title {
                Some(s) => Some(s@),
                None => None,
            },
            description: match self.description {
                Some(s) => Some(s@),
                None => None,
            },
            markets: match self.markets {
                Some(v) => Some(v.deep_view()),
                None => None,
            },
        }
    }
}

/// Copies an optional string, keeping its content.
fn clone_opt_string(o: &Option<String>) -> (r: Option<String>)
    ensures
        r == *o,
{
    match o {
        Some(s) => Some(s.clone()),
        None => None,
    }
}

/// Copies a list of markets, keeping every element's content.
fn clone_markets(v: &Vec<PolyMarketMarket>) -> (r: Vec<PolyMarketMarket>)
    ensures
        r.deep_view() == v.deep_view(),
{
    let mut r: Vec<PolyMarketMarket> = Vec::new();
    let mut i: usize = 0;
    while i < v.len()
        invariant
            i <= v.len(),
            r.len() == i,
            forall|j: int| 0 <= j < i ==> r@[j]@ == v@[j]@,
        decreases v.len() - i,
    {
        r.push(v[i].dup());
        i = i + 1;
    }
    proof {
        assert(r.deep_view() =~= v.deep_view());
    }
    r
}

impl Message for PolyMarketEvent {
    fn dup(&self) -> (r: Self)
        ensures
            r@ == self@,
    {
        PolyMarketEvent {
            id: self.id.clone(),
            title: clone_opt_string(&self.title),
            description: clone_opt_string(&self.description),
            markets: match &self.markets {
                Some(v) => Some(clone_markets(v)),
                None => None,
            },
        }
    }
}

} // verus!
