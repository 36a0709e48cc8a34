//! The headline scrape actor: on every tick it fetches the headline page,
//! reads the extracted headline blocks, filters out sponsored and empty
//! entries, and publishes the rest as news. Each headline's time text,
//! `"HH:MM Mon DD"`, is read as a local clock time in the current local year
//! and converted to an instant.

use vstd::prelude::*;

use crate::bus::BroadcastTopic;
use crate::clock::{
    clock_time_of, current_local_year, local_ymdhm_to_utc_ms, month_number_of, parse_clock_time,
    parse_month_number,
};
use crate::ingest::{fan_out_publish, FetchError, RETRY_BACKOFF_SECS};
use crate::lifecycle::{Actor, ActorState, StepOutcome};
use crate::messages::{RawNews, RawNewsV};
use crate::text::{dec_u32_of, parse_u32, split_whitespace_tokens, split_ws, trim_spec, trim_text};

verus! {

/// What reading headline time text yields: hour, minute, month and day, or
/// nothing when the text is not three tokens of clock time, month name and
/// day number.
pub open spec fn fj_parts_of(s: Seq<char>) -> Option<(u32, u32, u32, u32)> {
    let ts = split_ws(s);
    if ts.len() != 3 {
        None
    } else {
        match clock_time_of(ts[0]) {
            None => None,
            Some(hm) => match month_number_of(ts[1]) {
                None => None,
                Some(mo) => match dec_u32_of(ts[2]) {
                    None => None,
                    Some(d) => Some((hm.0, hm.1, mo, d)),
                },
            },
        }
    }
}

/// Reads headline time text: `"HH:MM Mon DD"` as clock time, month name and
/// day number.
pub fn parse_fj_parts(s: &str) -> (r: Option<(u32, u32, u32, u32)>)
    ensures
        r == fj_parts_of(s@),
        r matches Some(p) ==> p.0 < 24 && p.1 < 60 && 1 <= p.2 && p.2 <= 12,
{
    let toks = split_whitespace_tokens(s);
    proof {
        assert(toks@.map_values(|t: &str| t@).len() == toks@.len());
    }
    if toks.len() != 3 {
        return None;
    }
    proof {
        assert(toks@.map_values(|t: &str| t@)[0] == toks@[0]@);
        assert(toks@.map_values(|t: &str| t@)[1] == toks@[1]@);
        assert(toks@.map_values(|t: &str| t@)[2] == toks@[2]@);
    }
    let hm = match parse_clock_time(toks[0]) {
        Some(x) => x,
        None => {
            return None;
        },
    };
    let mo = match parse_month_number(toks[1]) {
        Some(x) => x,
        None => {
            return None;
        },
    };
    let d = match parse_u32(toks[2]) {
        Some(x) => x,
        None => {
            return None;
        },
    };
    Some((hm.0, hm.1, mo, d))
}

/// Reads headline time text as a local time in the current local year and
/// converts it to milliseconds since the Unix epoch. Text that does not
/// parse yields nothing; so may a date the machine's time zone skips.
pub fn parse_fj_time(s: &str) -> (r: Option<i64>)
    ensures
        r is Some ==> fj_parts_of(s@) is Some,
        fj_parts_of(s@) is None ==> r is None,
{
    let parts = match parse_fj_parts(s) {
        Some(p) => p,
        None => {
            return None;
        },
    };
    let year = current_local_year();
    local_ymdhm_to_utc_ms(year, parts.2, parts.3, parts.0, parts.1)
}

/// The model of a [`HeadlineItem`].
pub struct HeadlineItemV {
    pub headline_id: Option<Seq<char>>,
    pub title: Option<Seq<char>>,
    pub link: Option<Seq<char>>,
    pub labels: Seq<Seq<char>>,
    pub time_text: Option<Seq<char>>,
}

/// One headline block of the fetched page, reduced to the raw texts the
/// parsing rules read: the headline identifier, the title text, the share
/// link, the label texts and the time text, each exactly as the page
/// carried it.
pub struct HeadlineItem {
    pub headline_id: Option<String>,
    pub title: Option<String>,
    pub link: Option<String>,
    pub labels: Vec<String>,
    pub time_text: Option<String>,
}

impl View for HeadlineItem {
    type V = HeadlineItemV;

    open spec fn view(&self) -> HeadlineItemV {
        HeadlineItemV {
            headline_id: match self.headline_id {
                Some(s) => Some(s@),
                None => None,
            },
            title: match self.title {
                Some(s) => Some(s@),
                None => None,
            },
            link: match self.link {
                Some(s) => Some(s@),
                None => None,
            },
            labels: self.labels.deep_view(),
            time_text: match self.time_text {
                Some(s) => Some(s@),
                None => None,
            },
        }
    }
}

/// Whether a headline block is kept: it must carry a non-empty identifier
/// other than `"0"` (those mark sponsored blocks) and a title that is not
/// all white space.
pub open spec fn keeps_headline(it: HeadlineItemV) -> bool {
    &&& (match it.headline_id {
        Some(id) => id.len() > 0 && id != seq!['0'],
        None => false,
    })
    &&& (match it.title {
        Some(t) => trim_spec(t).len() > 0,
        None => false,
    })
}

/// The labels a headline keeps: each trimmed, the empty ones dropped.
pub open spec fn kept_labels(ls: Seq<Seq<char>>) -> Seq<Seq<char>>
    decreases ls.len(),
{
    if ls.len() == 0 {
        Seq::empty()
    } else {
        let rest = kept_labels(ls.drop_first());
        if trim_spec(ls[0]).len() > 0 {
            seq![trim_spec(ls[0])] + rest
        } else {
            rest
        }
    }
}

/// The address a headline is published under: its own share link when the
/// page carried one, else the page's base address.
pub open spec fn headline_url(it: HeadlineItemV, base: Seq<char>) -> Seq<char> {
    match it.link {
        Some(dl) => dl,
        None => base,
    }
}

/// Everything but the publication instant of the news item a kept headline
/// becomes.
pub open spec fn headline_core(it: HeadlineItemV, base: Seq<char>) -> RawNewsV {
    RawNewsV {
        url: headline_url(it, base),
        title: trim_spec(
            match it.title {
                Some(t) => t,
                None => Seq::empty(),
            },
        ),
        description: Seq::empty(),
        feed: "FinancialJuice"@,
        published: None,
        labels: kept_labels(it.labels),
    }
}

/// The time parts a headline's time text yields, when it has any.
pub open spec fn headline_time_parts(it: HeadlineItemV) -> Option<(u32, u32, u32, u32)> {
    match it.time_text {
        Some(t) => fj_parts_of(trim_spec(t)),
        None => None,
    }
}

/// What one kept headline must come out as: its news fields, and the time
/// parts its instant is derived from.
pub struct HeadlineExpected {
    pub core: RawNewsV,
    pub time: Option<(u32, u32, u32, u32)>,
}

/// The kept headlines of a page, in page order.
pub open spec fn parse_headlines_spec(items: Seq<HeadlineItemV>, base: Seq<char>) -> Seq<
    HeadlineExpected,
>
    decreases items.len(),
{
    if items.len() == 0 {
        Seq::empty()
    } else {
        let rest = parse_headlines_spec(items.drop_first(), base);
        if keeps_headline(items[0]) {
            seq![
                HeadlineExpected {
                    core: headline_core(items[0], base),
                    time: headline_time_parts(items[0]),
                },
            ] + rest
        } else {
            rest
        }
    }
}

/// `n` with its publication instant forgotten.
pub open spec fn scrub_published(n: RawNewsV) -> RawNewsV {
    RawNewsV { published: None, ..n }
}

/// Whether the identifier marks a block to drop: empty, or `"0"`.
fn is_zero_or_empty(id: &String) -> (b: bool)
    ensures
        b == (id@.len() == 0 || id@ == seq!['0']),
{
    let s = id.as_str();
    let n = s.unicode_len();
    if n == 0 {
        true
    } else if n == 1 {
        let b = s.get_char(0) == '0';
        proof {
            if b {
                assert(id@ =~= seq!['0']);
            } else {
                assert(id@ != seq!['0']);
            }
        }
        b
    } else {
        proof {
            assert(seq!['0'].len() == 1);
        }
        false
    }
}

/// Trims every label and keeps the non-empty ones, in order.
fn trim_labels(ls: &Vec<String>) -> (r: Vec<String>)
    ensures
        r.deep_view() == kept_labels(ls.deep_view()),
{
    let ghost lsv = ls.deep_view();
    let mut r: Vec<String> = Vec::new();
    let mut i: usize = 0;
    proof {
        assert(lsv.skip(0) =~= lsv);
        assert(r.deep_view() =~= Seq::<Seq<char>>::empty());
        assert(lsv.len() == ls@.len());
    }
    while i < ls.len()
        invariant
            i <= ls.len(),
            lsv == ls.deep_view(),
            lsv.len() == ls@.len(),
            kept_labels(lsv) == r.deep_view() + kept_labels(lsv.skip(i as int)),
        decreases ls.len() - i,
    {
        proof {
            assert(lsv.skip(i as int)[0] == lsv[i as int]);
            assert(lsv.skip(i as int).drop_first() =~= lsv.skip(i as int + 1));
            assert(lsv[i as int] == ls@[i as int]@);
        }
        let t = trim_text(ls[i].as_str());
        if !t.as_str().is_empty() {
            let ghost before = r.deep_view();
            r.push(t);
            proof {
                assert(r.deep_view() =~= before.push(trim_spec(lsv[i as int])));
                assert(before.push(trim_spec(lsv[i as int])) =~= before + seq![
                    trim_spec(lsv[i as int]),
                ]);
            }
        }
        i = i + 1;
    }
    proof {
        assert(lsv.skip(lsv.len() as int) =~= Seq::<Seq<char>>::empty());
        assert(r.deep_view() + Seq::<Seq<char>>::empty() =~= r.deep_view());
    }
    r
}

/// What parsing and re-serialising text as an absolute address yields: its
/// normal form, or nothing when the text is no absolute address.
pub uninterp spec fn url_normal_of(s: Seq<char>) -> Option<Seq<char>>;

/// Relies on `reqwest::Url::parse` (the address parser behind the HTTP
/// client): parsing is a function of the text alone, it rejects exactly the
/// texts that are no absolute address, and a parsed address re-serialises
/// to its normal form.
#[verifier::external_body]
fn normalize_url(s: &str) -> (r: Option<String>)
    ensures
        r is Some <==> url_normal_of(s@) is Some,
        r matches Some(u) ==> url_normal_of(s@) == Some(u@),
{
    match reqwest::Url::parse(s) {
        Ok(u) => Some(u.as_str().to_string()),
        Err(_) => None,
    }
}

/// The page's base address could not be read as an absolute address.
#[derive(Clone, Copy, PartialEq, Eq, Structural, Debug)]
pub struct InvalidBaseUrl;

/// Reads a fetched headline page. The base address must be an absolute
/// address — exactly otherwise the page is rejected — and is used in its
/// normal form. Sponsored and titleless blocks are dropped, the rest become
/// news items, in page order, titled with their trimmed title, addressed at
/// their share link or the normalised base address, with their trimmed
/// non-empty labels, and timed from their time text exactly where it parses.
pub fn parse_headlines(items: &Vec<HeadlineItem>, base_url: &String) -> (out: Result<
    Vec<RawNews>,
    InvalidBaseUrl,
>)
    ensures
        out is Err <==> url_normal_of(base_url@) is None,
        (out matches Ok(news) ==> {
            let expect = parse_headlines_spec(
                items@.map_values(|it: HeadlineItem| it@),
                url_normal_of(base_url@)->Some_0,
            );
            &&& news@.len() == expect.len()
            &&& forall|j: int|
                0 <= j < news@.len() ==> scrub_published(#[trigger] news@[j]@) == expect[j].core
            &&& forall|j: int|
                0 <= j < news@.len() && expect[j].time is None ==> (#[trigger] news@[j]@).published
                    is None
            &&& forall|j: int|
                0 <= j < news@.len() && (#[trigger] news@[j]@).published is Some ==> expect[j].time
                    is Some
        }),
{
    let base = match normalize_url(base_url.as_str()) {
        Some(b) => b,
        None => {
            return Err(InvalidBaseUrl);
        },
    };
    let ghost nb = base@;
    let ghost itemsv = items@.map_values(|it: HeadlineItem| it@);
    let ghost full = parse_headlines_spec(itemsv, nb);
    let mut out: Vec<RawNews> = Vec::new();
    let mut i: usize = 0;
    proof {
        assert(itemsv.skip(0) =~= itemsv);
        assert(full.take(0) =~= Seq::<HeadlineExpected>::empty());
    }
    while i < items.len()
        invariant
            i <= items.len(),
            base@ == nb,
            itemsv == items@.map_values(|it: HeadlineItem| it@),
            itemsv.len() == items@.len(),
            full == parse_headlines_spec(itemsv, nb),
            out@.len() <= full.len(),
            full =~= full.take(out@.len() as int) + parse_headlines_spec(
                itemsv.skip(i as int),
                nb,
            ),
            forall|j: int|
                0 <= j < out@.len() ==> scrub_published(#[trigger] out@[j]@) == full[j].core,
            forall|j: int|
                0 <= j < out@.len() && full[j].time is None ==> (#[trigger] out@[j]@).published
                    is None,
            forall|j: int|
                0 <= j < out@.len() && (#[trigger] out@[j]@).published is Some ==> full[j].time
                    is Some,
        decreases items.len() - i,
    {
        proof {
            assert(itemsv.skip(i as int)[0] == itemsv[i as int]);
            assert(itemsv.skip(i as int).drop_first() =~= itemsv.skip(i as int + 1));
            assert(itemsv[i as int] == items@[i as int]@);
        }
        let it = &items[i];
        let id_ok = match &it.headline_id {
            Some(id) => !is_zero_or_empty(id),
            None => false,
        };
        if id_ok {
            match &it.title {
                Some(t) => {
                    let title = trim_text(t.as_str());
                    if !title.as_str().is_empty() {
                        let ghost k = out@.len() as int;
                        let url = match &it.link {
                            Some(dl) => dl.clone(),
                            None => base.clone(),
                        };
                        let labels = trim_labels(&it.labels);
                        let published: Option<i64> = match &it.time_text {
                            Some(tt) => {
                                let trimmed = trim_text(tt.as_str());
                                parse_fj_time(trimmed.as_str())
                            },
                            None => None,
                        };
                        let news = RawNews {
                            url,
                            title,
                            description: String::new(),
                            feed: "FinancialJuice".to_owned(),
                            published,
                            labels,
                        };
                        proof {
                            assert(keeps_headline(itemsv[i as int]));
                            assert(scrub_published(news@) == headline_core(
                                itemsv[i as int],
                                nb,
                            ));
                            assert(full[k] == HeadlineExpected {
                                core: headline_core(itemsv[i as int], nb),
                                time: headline_time_parts(itemsv[i as int]),
                            });
                            assert(full.take(k + 1) =~= full.take(k) + seq![full[k]]);
                        }
                        out.push(news);
                    } else {
                        proof {
                            assert(!keeps_headline(itemsv[i as int]));
                        }
                    }
                },
                None => {
                    proof {
                        assert(!keeps_headline(itemsv[i as int]));
                    }
                },
            }
        } else {
            proof {
                assert(!keeps_headline(itemsv[i as int]));
            }
        }
        i = i + 1;
    }
    proof {
        assert(itemsv.skip(itemsv.len() as int) =~= Seq::<HeadlineItemV>::empty());
        assert(full.take(out@.len() as int) + Seq::<HeadlineExpected>::empty() =~= full.take(
            out@.len() as int,
        ));
        assert(full =~= full.take(out@.len() as int));
    }
    Ok(out)
}

/// The headline scrape actor.
pub struct FinJuiceActor {
    /// Where the actor is in its lifecycle.
    pub st: ActorState,
}

impl FinJuiceActor {
    /// Builds the actor.
    pub fn new() -> (a: Self)
        ensures
            a.st is Starting,
    {
        FinJuiceActor { st: ActorState::Starting }
    }

    /// One tick of the actor: the news of a successful fetch-and-parse is
    /// published on the news topic, every item of it; a failed fetch is
    /// answered with a fixed backoff — the actor keeps running either way.
    pub fn on_tick(
        &mut self,
        out: &mut BroadcastTopic<RawNews>,
        fetched: Result<Vec<RawNews>, FetchError>,
    ) -> (r: StepOutcome)
        requires
            old(self).st is Running,
            old(out).wf(),
            !old(out)@.closed,
            old(out)@.history.len() + (match fetched {
                Ok(items) => items@.len(),
                Err(_) => 0,
            }) <= usize::MAX,
        ensures
            final(self).st is Running,
            final(out).wf(),
            !final(out)@.closed,
            final(out)@.cap == old(out)@.cap,
            fetched matches Ok(items) ==> final(out)@.history == old(out)@.history
                + items@.map_values(|n: RawNews| n@) && r is Continue,
            fetched is Err ==> final(out)@.history == old(out)@.history && r
                == StepOutcome::Backoff(RETRY_BACKOFF_SECS),
    {
        match fetched {
            Ok(items) => {
                let _ = fan_out_publish(out, items);
                StepOutcome::Continue
            },
            Err(_) => StepOutcome::Backoff(RETRY_BACKOFF_SECS),
        }
    }
}

impl Actor for FinJuiceActor {
    open spec fn state(&self) -> ActorState {
        self.st
    }

    fn begin(&mut self) {
        self.st = ActorState::Running;
    }

    fn on_cancelled(&mut self) -> (r: StepOutcome) {
        self.st = ActorState::Stopped;
        StepOutcome::StopClean
    }
}

} // verus!
