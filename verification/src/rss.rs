//! The news feed actor: on every tick it fetches the configured feeds,
//! parses each one, turns the entries into news items, and fans them out on
//! the news topic. A feed that fails to fetch or parse is reported and
//! skipped; it never aborts the other feeds or the actor.

use vstd::prelude::*;

use crate::bus::BroadcastTopic;
use crate::clock::{parse_rfc2822_ms, rfc2822_ms_of};
use crate::config::RssFeedCfg;
use crate::ingest::{fan_out_publish, FetchError, RETRY_BACKOFF_SECS};
use crate::lifecycle::{Actor, ActorState, StepOutcome};
use crate::messages::{Message, RawNews, RawNewsV};

verus! {

/// The model of a [`FeedEntry`].
pub struct FeedEntryV {
    pub title: Option<Seq<char>>,
    pub link: Option<Seq<char>>,
    pub description: Option<Seq<char>>,
    pub pub_date: Option<Seq<char>>,
}

/// What one feed entry carries, as the feed parser hands it over.
pub struct FeedEntry {
    pub title: Option<String>,
    pub link: Option<String>,
    pub description: Option<String>,
    pub pub_date: Option<String>,
}

impl View for FeedEntry {
    type V = FeedEntryV;

    open spec fn view(&self) -> FeedEntryV {
        FeedEntryV {
            title: match self.title {
                Some(s) => Some(s@),
                None => None,
            },
            link: match self.link {
                Some(s) => Some(s@),
                None => None,
            },
            description: match self.description {
                Some(s) => Some(s@),
                None => None,
            },
            pub_date: match self.pub_date {
                Some(s) => Some(s@),
                None => None,
            },
        }
    }
}

/// What parsing the bytes of a feed document yields: the entries, in
/// document order, each reduced to the fields the news mapping reads — or
/// nothing when the bytes are not a feed document.
pub uninterp spec fn rss_entries_of(bytes: Seq<u8>) -> Option<Seq<FeedEntryV>>;

/// Relies on `rss::Channel::read_from`: parsing a feed document is a
/// function of its bytes alone, and yields the channel's items in order.
#[verifier::external_body]
fn read_channel_entries(body: &Vec<u8>) -> (r: Option<Vec<FeedEntry>>)
    ensures
        r is Some <==> rss_entries_of(body@) is Some,
        r matches Some(v) ==> rss_entries_of(body@) matches Some(es) && v@.map_values(
            |e: FeedEntry| e@,
        ) == es,
{
    match rss::Channel::read_from(&body[..]) {
        Ok(ch) => Some(
            ch.items.into_iter().map(
                |i| FeedEntry {
                    title: i.title,
                    link: i.link,
                    description: i.description,
                    pub_date: i.pub_date,
                },
            ).collect(),
        ),
        Err(_) => None,
    }
}

/// The string an absent field falls back to.
pub open spec fn or_empty(o: Option<Seq<char>>) -> Seq<char> {
    match o {
        Some(s) => s,
        None => Seq::empty(),
    }
}

/// The news item one feed entry becomes: absent fields become empty, the
/// publication date is read from the entry's own RFC 2822 text, and the
/// entry is tagged with the feed it came from.
pub open spec fn news_of_entry(feed_id: Seq<char>, e: FeedEntryV) -> RawNewsV {
    RawNewsV {
        url: or_empty(e.link),
        title: or_empty(e.title),
        description: or_empty(e.description),
        feed: feed_id,
        published: match e.pub_date {
            Some(d) => rfc2822_ms_of(d),
            None => None,
        },
        labels: Seq::empty(),
    }
}

/// The string an absent field falls back to.
fn unwrap_or_empty(o: &Option<String>) -> (r: String)
    ensures
        r@ == or_empty(
            match o {
                Some(s) => Some(s@),
                None => None::<Seq<char>>,
            },
        ),
{
    match o {
        Some(s) => s.clone(),
        None => String::new(),
    }
}

/// Turns one feed entry into the news item it denotes.
pub fn entry_to_news(feed_id: &String, e: &FeedEntry) -> (r: RawNews)
    ensures
        r@ == news_of_entry(feed_id@, e@),
{
    let published: Option<i64> = match &e.pub_date {
        Some(d) => parse_rfc2822_ms(d.as_str()),
        None => None,
    };
    let r = RawNews {
        url: unwrap_or_empty(&e.link),
        title: unwrap_or_empty(&e.title),
        description: unwrap_or_empty(&e.description),
        feed: feed_id.clone(),
        published,
        labels: Vec::new(),
    };
    proof {
        assert(r@.labels =~= Seq::<Seq<char>>::empty());
    }
    r
}

/// Turns a feed's entries into news items, in entry order.
pub fn entries_to_news(feed_id: &String, entries: &Vec<FeedEntry>) -> (r: Vec<RawNews>)
    ensures
        r@.len() == entries@.len(),
        forall|i: int| 0 <= i < entries@.len() ==> r@[i]@ == news_of_entry(feed_id@, entries@[i]@),
{
    let mut r: Vec<RawNews> = Vec::new();
    let mut i: usize = 0;
    while i < entries.len()
        invariant
            i <= entries.len(),
            r.len() == i,
            forall|j: int| 0 <= j < i ==> r@[j]@ == news_of_entry(feed_id@, entries@[j]@),
        decreases entries.len() - i,
    {
        let n = entry_to_news(feed_id, &entries[i]);
        r.push(n);
        i = i + 1;
    }
    r
}

/// Parses one fetched feed body and maps its entries to news items tagged
/// with the feed's identifier; a body that is not a feed document is a
/// decode failure, and exactly those fail.
pub fn news_from_feed_body(feed: &RssFeedCfg, body: &Vec<u8>) -> (r: Result<Vec<RawNews>, FetchError>)
    ensures
        r is Err <==> rss_entries_of(body@) is None,
        r matches Err(e) ==> e == FetchError::Decode,
        r matches Ok(v) ==> rss_entries_of(body@) matches Some(es) && v@.len() == es.len() && (
        forall|i: int| 0 <= i < es.len() ==> v@[i]@ == news_of_entry(feed.id@, es[i])),
{
    match read_channel_entries(body) {
        Some(entries) => {
            let news = entries_to_news(&feed.id, &entries);
            proof {
                let es = rss_entries_of(body@)->Some_0;
                assert(forall|i: int|
                    0 <= i < es.len() ==> entries@[i]@ == es[i] && news@[i]@ == news_of_entry(
                        feed.id@,
                        entries@[i]@,
                    ));
            }
            Ok(news)
        },
        None => Err(FetchError::Decode),
    }
}

/// The news of the successfully fetched feeds, flattened in feed order.
pub open spec fn flatten_ok(rs: Seq<Result<Vec<RawNews>, FetchError>>) -> Seq<RawNewsV>
    decreases rs.len(),
{
    if rs.len() == 0 {
        Seq::empty()
    } else {
        (match rs[0] {
            Ok(v) => v@.map_values(|n: RawNews| n@),
            Err(_) => Seq::empty(),
        }) + flatten_ok(rs.drop_first())
    }
}

/// How many of the per-feed results failed.
pub open spec fn err_count(rs: Seq<Result<Vec<RawNews>, FetchError>>) -> nat
    decreases rs.len(),
{
    if rs.len() == 0 {
        0
    } else {
        (if rs[0] is Err {
            1nat
        } else {
            0nat
        }) + err_count(rs.drop_first())
    }
}

/// Copies a list of news items, keeping every element's content.
fn dup_news_list(v: &Vec<RawNews>) -> (r: Vec<RawNews>)
    ensures
        r@.map_values(|n: RawNews| n@) == v@.map_values(|n: RawNews| n@),
{
    let mut r: Vec<RawNews> = Vec::new();
    let mut i: usize = 0;
    while i < v.len()
        invariant
            i <= v.len(),
            r.len() == i,
            forall|j: int| 0 <= j < i ==> r@[j]@ == v@[j]@,
        decreases v.len() - i,
    {
        r.push(v[i].dup());
        i = i + 1;
    }
    proof {
        assert(r@.map_values(|n: RawNews| n@) =~= v@.map_values(|n: RawNews| n@));
    }
    r
}

/// Gathers the per-feed results of one tick: the news of every feed that
/// succeeded, in feed order, and the count of feeds that failed — a failing
/// feed is thereby isolated from the others.
pub fn flatten_feed_results(results: &Vec<Result<Vec<RawNews>, FetchError>>) -> (r: (
    Vec<RawNews>,
    usize,
))
    ensures
        r.0@.map_values(|n: RawNews| n@) == flatten_ok(results@),
        r.1 as nat == err_count(results@),
{
    let mut news: Vec<RawNews> = Vec::new();
    let mut failed: usize = 0;
    let mut i: usize = 0;
    proof {
        assert(results@.skip(0) =~= results@);
        assert(news@.map_values(|n: RawNews| n@) =~= Seq::<RawNewsV>::empty());
    }
    while i < results.len()
        invariant
            i <= results.len(),
            failed <= i,
            news@.map_values(|n: RawNews| n@) + flatten_ok(results@.skip(i as int)) == flatten_ok(
                results@,
            ),
            failed as nat + err_count(results@.skip(i as int)) == err_count(results@),
        decreases results.len() - i,
    {
        proof {
            assert(results@.skip(i as int)[0] == results@[i as int]);
            assert(results@.skip(i as int).drop_first() =~= results@.skip(i as int + 1));
        }
        match &results[i] {
            Ok(v) => {
                let mut copy = dup_news_list(v);
                let ghost before = news@.map_values(|n: RawNews| n@);
                let ghost added = copy@.map_values(|n: RawNews| n@);
                news.append(&mut copy);
                proof {
                    assert(news@.map_values(|n: RawNews| n@) =~= before + added);
                }
            },
            Err(_) => {
                failed = failed + 1;
            },
        }
        i = i + 1;
    }
    proof {
        assert(results@.skip(results@.len() as int) =~= Seq::empty());
    }
    (news, failed)
}

/// The news feed actor.
pub struct RssActor {
    /// Where the actor is in its lifecycle.
    pub st: ActorState,
}

impl RssActor {
    /// Builds the actor.
    pub fn new() -> (a: Self)
        ensures
            a.st is Starting,
    {
        RssActor { st: ActorState::Starting }
    }

    /// One tick of the actor: a successful fetch is fanned out on the news
    /// topic, every item of it; a failed fetch is answered with a fixed
    /// backoff so a failing collaborator is not hammered — the actor keeps
    /// running either way.
    pub fn on_tick(
        &mut self,
        out: &mut BroadcastTopic<RawNews>,
        fetched: Result<Vec<RawNews>, FetchError>,
    ) -> (r: StepOutcome)
        requires
            old(self).st is Running,
            old(out).wf(),
            !old(out)@.closed,
            old(out)@.history.len() + (match fetched {
                Ok(items) => items@.len(),
                Err(_) => 0,
            }) <= usize::MAX,
        ensures
            final(self).st is Running,
            final(out).wf(),
            !final(out)@.closed,
            final(out)@.cap == old(out)@.cap,
            fetched matches Ok(items) ==> final(out)@.history == old(out)@.history
                + items@.map_values(|n: RawNews| n@) && r is Continue,
            fetched is Err ==> final(out)@.history == old(out)@.history && r
                == StepOutcome::Backoff(RETRY_BACKOFF_SECS),
    {
        match fetched {
            Ok(items) => {
                let _ = fan_out_publish(out, items);
                StepOutcome::Continue
            },
            Err(_) => StepOutcome::Backoff(RETRY_BACKOFF_SECS),
        }
    }
}

impl Actor for RssActor {
    open spec fn state(&self) -> ActorState {
        self.st
    }

    fn begin(&mut self) {
        self.st = ActorState::Running;
    }

    fn on_cancelled(&mut self) -> (r: StepOutcome) {
        self.st = ActorState::Stopped;
        StepOutcome::StopClean
    }
}

} // verus!
