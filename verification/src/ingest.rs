//! The ingestion pattern shared by producer actors: timer-driven fetch,
//! paginated retrieval, and a bounded-concurrency fan-out publish with
//! per-item error isolation.

use vstd::arithmetic::div_mod::lemma_fundamental_div_mod_converse;
use vstd::prelude::*;

use crate::bus::{BroadcastTopic, Topic, TopicError};
use crate::messages::Message;

verus! {

/// How long a producer waits after a failed fetch before it resumes ticking,
/// so that a failing collaborator is not retried in a hot loop.
pub const RETRY_BACKOFF_SECS: u64 = 5;

/// The bound on in-flight concurrent publishes during one fan-out batch.
pub const MAX_PUBLISH_CONCURRENCY: usize = 32;

/// The bound on concurrently fetched feeds.
pub const FEED_FETCH_CONCURRENCY: usize = 8;

/// Why a fetch against an external collaborator failed. All of these are
/// transient for the actor: it logs, backs off, and keeps ticking.
#[derive(Clone, Copy, PartialEq, Eq, Structural, Debug)]
pub enum FetchError {
    /// The request could not be sent or the connection broke.
    Network,
    /// The collaborator answered with an error status.
    BadStatus,
    /// The payload could not be decoded.
    Decode,
}

/// The page size used by the paginated event fetch.
pub const EVENT_PAGE_LIMIT: usize = 100;

/// Whether a page ends the paginated retrieval: an empty page, or a page
/// shorter than the requested size, signals the last page.
pub fn page_is_last(page_len: usize, limit: usize) -> (b: bool)
    ensures
        b == (page_len == 0 || page_len < limit),
{
    page_len == 0 || page_len < limit
}

/// The offset of the page after the one at `offset`, if it fits.
pub fn next_page_offset(offset: usize, limit: usize) -> (r: Option<usize>)
    ensures
        r is Some <==> offset + limit <= usize::MAX,
        r matches Some(n) ==> n == offset + limit,
{
    if offset <= usize::MAX - limit {
        Some(offset + limit)
    } else {
        None
    }
}

/// One page of a source holding `rows`: the slice of up to `limit` rows
/// starting at `offset`. This is what each page request of a well-behaved
/// paginated source returns.
fn copy_page<T: Message>(rows: &Vec<T>, offset: usize, limit: usize) -> (page: Vec<T>)
    requires
        offset <= rows.len(),
    ensures
        page@.len() == if rows@.len() - offset < limit {
            rows@.len() - offset
        } else {
            limit as int
        },
        forall|i: int| 0 <= i < page@.len() ==> page@[i]@ == rows@[offset + i]@,
{
    let end = if rows.len() - offset < limit {
        rows.len()
    } else {
        offset + limit
    };
    let mut page: Vec<T> = Vec::new();
    let mut j: usize = offset;
    while j < end
        invariant
            offset <= j <= end <= rows.len(),
            page.len() == j - offset,
            forall|i: int| 0 <= i < page@.len() ==> page@[i]@ == rows@[offset + i]@,
        decreases end - j,
    {
        page.push(rows[j].dup());
        j = j + 1;
    }
    page
}

/// The paginated retrieval step, run against a source holding `rows`: pages
/// of size `limit` are requested at increasing offsets and accumulated until
/// an empty or short page arrives. It terminates after exactly
/// `rows / limit + 1` page requests — the short final page ends it early,
/// and only an exact multiple costs one extra, empty, request — and it
/// accumulates every row, in order.
pub fn fetch_all_pages<T: Message>(rows: &Vec<T>, limit: usize) -> (r: (Vec<T>, usize))
    requires
        limit >= 1,
        rows@.len() < usize::MAX,
    ensures
        r.0@.len() == rows@.len(),
        forall|i: int| 0 <= i < rows@.len() ==> r.0@[i]@ == rows@[i]@,
        r.1 as int == rows@.len() as int / limit as int + 1,
{
    let mut out: Vec<T> = Vec::new();
    let mut offset: usize = 0;
    let mut requests: usize = 0;
    loop
        invariant_except_break
            limit >= 1,
            rows@.len() < usize::MAX,
            offset <= rows.len(),
            requests <= offset || (requests == 0 && offset == 0),
            offset as int == requests as int * limit as int,
            out.len() == offset,
            forall|i: int| 0 <= i < out@.len() ==> out@[i]@ == rows@[i]@,
        ensures
            out.len() == rows.len(),
            forall|i: int| 0 <= i < out@.len() ==> out@[i]@ == rows@[i]@,
            requests as int == rows@.len() as int / limit as int + 1,
        decreases rows.len() - offset,
    {
        let mut page = copy_page(rows, offset, limit);
        let page_len = page.len();
        requests = requests + 1;
        out.append(&mut page);
        if page_len == 0 || page_len < limit {
            proof {
                lemma_fundamental_div_mod_converse(
                    rows@.len() as int,
                    limit as int,
                    (requests - 1) as int,
                    page_len as int,
                );
            }
            break;
        }
        proof {
            assert((requests as int - 1) * (limit as int) + limit as int == (requests as int) * (
            limit as int)) by (nonlinear_arith);
        }
        offset = offset + limit;
    }
    (out, requests)
}

/// The outcome of one fan-out batch: how many items were published and how
/// many failed. Failures are isolated per item and only reported; they never
/// abort the rest of the batch or the actor.
#[derive(Clone, Copy, PartialEq, Eq, Structural, Debug)]
pub struct BatchReport {
    pub published: usize,
    pub failed: usize,
}

/// How many of the per-item outcomes in `s` are successes.
pub open spec fn count_ok(s: Seq<Result<(), TopicError>>) -> nat
    decreases s.len(),
{
    if s.len() == 0 {
        0
    } else {
        count_ok(s.drop_last()) + if s.last() is Ok {
            1nat
        } else {
            0nat
        }
    }
}

/// Folds the per-item outcomes of one batch into its report: every item is
/// accounted for, as a success or as an isolated failure.
pub fn summarize_batch(results: &Vec<Result<(), TopicError>>) -> (r: BatchReport)
    ensures
        r.published == count_ok(results@),
        r.published + r.failed == results@.len(),
{
    let mut published: usize = 0;
    let mut i: usize = 0;
    while i < results.len()
        invariant
            i <= results.len(),
            published == count_ok(results@.take(i as int)),
            published <= i,
        decreases results.len() - i,
    {
        if results[i].is_ok() {
            published = published + 1;
        }
        proof {
            assert(results@.take(i + 1).drop_last() =~= results@.take(i as int));
        }
        i = i + 1;
    }
    proof {
        assert(results@.take(results@.len() as int) =~= results@);
        lemma_count_ok_le(results@);
    }
    BatchReport { published, failed: results.len() - published }
}

/// A batch never reports more successes than items.
proof fn lemma_count_ok_le(s: Seq<Result<(), TopicError>>)
    ensures
        count_ok(s) <= s.len(),
    decreases s.len(),
{
    if s.len() > 0 {
        lemma_count_ok_le(s.drop_last());
    }
}

/// Fan-out isolation: however one item of a batch fails, it is the only item
/// the report counts against the batch — the other items' successes are all
/// preserved in the report.
pub proof fn lemma_fan_out_isolation(s: Seq<Result<(), TopicError>>, bad: int)
    requires
        0 <= bad < s.len(),
        s[bad] is Err,
        forall|i: int| 0 <= i < s.len() && i != bad ==> s[i] is Ok,
    ensures
        count_ok(s) == s.len() - 1,
    decreases s.len(),
{
    if s.len() == 1 {
        assert(count_ok(s.drop_last()) == 0);
    } else if bad == s.len() - 1 {
        lemma_count_all_ok(s.drop_last());
    } else {
        lemma_fan_out_isolation(s.drop_last(), bad);
    }
}

/// A batch whose items all succeed reports them all.
pub proof fn lemma_count_all_ok(s: Seq<Result<(), TopicError>>)
    requires
        forall|i: int| 0 <= i < s.len() ==> s[i] is Ok,
    ensures
        count_ok(s) == s.len(),
    decreases s.len(),
{
    if s.len() > 0 {
        lemma_count_all_ok(s.drop_last());
    }
}

/// Publishes a whole batch to `topic`, one item at a time, collecting every
/// per-item outcome, and reports the batch result. The topic's history grows
/// by exactly the batch, in batch order, and — the broadcast topic never
/// refusing a publish — every item is reported published.
pub fn fan_out_publish<T: Message>(topic: &mut BroadcastTopic<T>, items: Vec<T>) -> (r: BatchReport)
    requires
        old(topic).wf(),
        !old(topic)@.closed,
        old(topic)@.history.len() + items@.len() <= usize::MAX,
    ensures
        final(topic).wf(),
        !final(topic)@.closed,
        final(topic)@.cap == old(topic)@.cap,
        final(topic)@.history == old(topic)@.history + items@.map_values(|m: T| m@),
        r.published == items@.len(),
        r.failed == 0,
{
    let ghost orig = topic@.history;
    let ghost views = items@.map_values(|m: T| m@);
    let n = items.len();
    let mut results: Vec<Result<(), TopicError>> = Vec::new();
    let mut i: usize = 0;
    let mut items = items;
    while i < n
        invariant
            i <= n,
            n == items.len(),
            topic.wf(),
            !topic@.closed,
            topic@.cap == old(topic)@.cap,
            views == items@.map_values(|m: T| m@),
            views.len() == n,
            topic@.history == orig + views.take(i as int),
            topic@.history.len() + (n - i) <= usize::MAX,
            results@.len() == i,
            forall|j: int| 0 <= j < i ==> results@[j] is Ok,
        decreases n - i,
    {
        let item = items[i].dup();
        let outcome = topic.publish(item);
        results.push(outcome);
        proof {
            assert(views.take(i + 1).drop_last() =~= views.take(i as int));
            assert(views.take(i + 1) =~= views.take(i as int).push(views[i as int]));
            assert((orig + views.take(i as int)).push(views[i as int]) =~= orig + views.take(
                i + 1,
            ));
        }
        i = i + 1;
    }
    proof {
        assert(views.take(n as int) =~= views);
    }
    let report = summarize_batch(&results);
    proof {
        lemma_count_all_ok(results@);
    }
    report
}

} // verus!
