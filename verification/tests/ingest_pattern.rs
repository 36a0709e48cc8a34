use polymind::bus::{BroadcastTopic, RecvOutcome, Topic, TopicError};
use polymind::ingest::{
    fan_out_publish, fetch_all_pages, next_page_offset, page_is_last, summarize_batch,
};
use polymind::messages::PolyMarketEvent;

fn event(id: &str) -> PolyMarketEvent {
    PolyMarketEvent { id: id.to_string(), title: None, description: None, markets: None }
}

fn events(n: usize) -> Vec<PolyMarketEvent> {
    (0..n).map(|i| event(&format!("e{i}"))).collect()
}

#[test]
fn pagination_stops_after_the_short_page() {
    let rows = events(237);
    let (all, requests) = fetch_all_pages(&rows, 100);
    assert_eq!(requests, 3);
    assert_eq!(all.len(), 237);
    assert_eq!(all[0].id, "e0");
    assert_eq!(all[236].id, "e236");
}

#[test]
fn pagination_on_an_exact_multiple_costs_one_empty_request() {
    let (all, requests) = fetch_all_pages(&events(200), 100);
    assert_eq!(requests, 3);
    assert_eq!(all.len(), 200);
}

#[test]
fn pagination_of_an_empty_source_makes_one_request() {
    let (all, requests) = fetch_all_pages(&events(0), 100);
    assert_eq!(requests, 1);
    assert!(all.is_empty());
}

#[test]
fn pagination_of_a_single_short_page() {
    let (all, requests) = fetch_all_pages(&events(37), 100);
    assert_eq!(requests, 1);
    assert_eq!(all.len(), 37);
}

#[test]
fn last_page_rule() {
    assert!(page_is_last(0, 100));
    assert!(page_is_last(37, 100));
    assert!(!page_is_last(100, 100));
    assert_eq!(next_page_offset(200, 100), Some(300));
    assert_eq!(next_page_offset(usize::MAX, 100), None);
}

#[test]
fn one_failing_item_leaves_the_other_nine_published() {
    let mut results: Vec<Result<(), TopicError>> = vec![Ok(()); 10];
    results[4] = Err(TopicError::Closed);
    let report = summarize_batch(&results);
    assert_eq!(report.published, 9);
    assert_eq!(report.failed, 1);
}

#[test]
fn batch_with_no_failures_reports_them_all() {
    let results: Vec<Result<(), TopicError>> = vec![Ok(()); 7];
    let report = summarize_batch(&results);
    assert_eq!(report.published, 7);
    assert_eq!(report.failed, 0);
}

#[test]
fn fan_out_delivers_the_whole_batch_in_order() {
    let mut topic: BroadcastTopic<PolyMarketEvent> = BroadcastTopic::with_capacity(16);
    let mut cursor = topic.subscribe();
    let report = fan_out_publish(&mut topic, events(3));
    assert_eq!(report.published, 3);
    assert_eq!(report.failed, 0);
    for i in 0..3 {
        match topic.recv(&mut cursor) {
            RecvOutcome::Received(e) => assert_eq!(e.id, format!("e{i}")),
            _ => panic!("expected the batch in order"),
        }
    }
    assert!(matches!(topic.recv(&mut cursor), RecvOutcome::Pending));
}
