use polymind::bus::{BroadcastTopic, Bus, RecvOutcome, Topic};
use polymind::messages::{MarketDataRequest, PolyMarketEvent, PolyMarketMarket, RawNews};

fn req(id: &str) -> MarketDataRequest {
    MarketDataRequest { market_id: id.to_string() }
}

#[test]
fn publish_without_subscribers_succeeds() {
    let mut topic: BroadcastTopic<MarketDataRequest> = BroadcastTopic::with_capacity(4);
    assert!(topic.publish(req("m1")).is_ok());
    assert!(topic.publish(req("m2")).is_ok());
    assert_eq!(topic.published_len(), 2);
}

#[test]
fn subscriber_sees_messages_in_publish_order() {
    let mut topic: BroadcastTopic<MarketDataRequest> = BroadcastTopic::with_capacity(8);
    let mut cursor = topic.subscribe();
    for id in ["a", "b", "c", "d", "e"] {
        topic.publish(req(id)).unwrap();
    }
    for id in ["a", "b", "c", "d", "e"] {
        match topic.recv(&mut cursor) {
            RecvOutcome::Received(m) => assert_eq!(m.market_id, id),
            _ => panic!("expected a message"),
        }
    }
    assert!(matches!(topic.recv(&mut cursor), RecvOutcome::Pending));
}

#[test]
fn overflowing_subscriber_learns_its_lag_and_resumes() {
    let capacity = 4;
    let k = 3;
    let mut topic: BroadcastTopic<MarketDataRequest> = BroadcastTopic::with_capacity(capacity);
    let mut cursor = topic.subscribe();
    for i in 0..capacity + k {
        topic.publish(req(&format!("m{i}"))).unwrap();
    }
    match topic.recv(&mut cursor) {
        RecvOutcome::Lagged(n) => assert_eq!(n, k),
        _ => panic!("expected a lag report"),
    }
    match topic.recv(&mut cursor) {
        RecvOutcome::Received(m) => assert_eq!(m.market_id, "m3"),
        _ => panic!("expected the oldest retained message"),
    }
    match topic.recv(&mut cursor) {
        RecvOutcome::Received(m) => assert_eq!(m.market_id, "m4"),
        _ => panic!("expected the next message"),
    }
}

#[test]
fn late_subscriber_sees_only_later_messages() {
    let mut topic: BroadcastTopic<MarketDataRequest> = BroadcastTopic::with_capacity(8);
    for id in ["m1", "m2", "m3"] {
        topic.publish(req(id)).unwrap();
    }
    let mut cursor = topic.subscribe();
    topic.publish(req("m4")).unwrap();
    match topic.recv(&mut cursor) {
        RecvOutcome::Received(m) => assert_eq!(m.market_id, "m4"),
        _ => panic!("expected only the message published after subscribing"),
    }
    assert!(matches!(topic.recv(&mut cursor), RecvOutcome::Pending));
}

#[test]
fn closed_topic_reports_closed_after_drain() {
    let mut topic: BroadcastTopic<MarketDataRequest> = BroadcastTopic::with_capacity(4);
    let mut cursor = topic.subscribe();
    topic.publish(req("last")).unwrap();
    topic.close();
    assert!(matches!(topic.recv(&mut cursor), RecvOutcome::Received(_)));
    assert!(matches!(topic.recv(&mut cursor), RecvOutcome::Closed));
}

#[test]
fn every_subscriber_observes_the_same_logical_value() {
    let mut topic: BroadcastTopic<PolyMarketEvent> = BroadcastTopic::with_capacity(4);
    let mut first = topic.subscribe();
    let mut second = topic.subscribe();
    let event = PolyMarketEvent {
        id: "ev".to_string(),
        title: Some("Title".to_string()),
        description: None,
        markets: Some(vec![
            PolyMarketMarket { id: "m1".to_string() },
            PolyMarketMarket { id: "m2".to_string() },
        ]),
    };
    topic.publish(event).unwrap();
    let expected = PolyMarketEvent {
        id: "ev".to_string(),
        title: Some("Title".to_string()),
        description: None,
        markets: Some(vec![
            PolyMarketMarket { id: "m1".to_string() },
            PolyMarketMarket { id: "m2".to_string() },
        ]),
    };
    for cursor in [&mut first, &mut second] {
        match topic.recv(cursor) {
            RecvOutcome::Received(e) => assert_eq!(e, expected),
            _ => panic!("expected the published event"),
        }
    }
}

#[test]
fn a_labelled_news_item_travels_intact() {
    let mut topic: BroadcastTopic<RawNews> = BroadcastTopic::with_capacity(4);
    let mut cursor = topic.subscribe();
    topic
        .publish(RawNews {
            url: "http://feed.example/a".to_string(),
            title: "Hello".to_string(),
            description: "World".to_string(),
            feed: "f1".to_string(),
            published: Some(7),
            labels: vec!["a".to_string(), "b".to_string()],
        })
        .unwrap();
    match topic.recv(&mut cursor) {
        RecvOutcome::Received(n) => {
            assert_eq!(n.labels, vec!["a".to_string(), "b".to_string()]);
            assert_eq!(n.published, Some(7));
            assert_eq!(n.title, "Hello");
        },
        _ => panic!("expected the news item"),
    }
}

#[test]
fn bus_owns_one_topic_per_message_type() {
    let bus = Bus::new();
    assert_eq!(bus.raw_news.published_len(), 0);
    assert_eq!(bus.polymarket_events.published_len(), 0);
    assert_eq!(bus.market_data_request.published_len(), 0);
    assert_eq!(bus.market_data.published_len(), 0);
    assert_eq!(bus.orders.published_len(), 0);
    assert_eq!(bus.executions.published_len(), 0);
}
