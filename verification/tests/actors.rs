use polymind::altdata::AltDataActor;
use polymind::bus::{Bus, RecvOutcome, Topic};
use polymind::execution::ExecutionActor;
use polymind::finjuice::FinJuiceActor;
use polymind::ingest::{FetchError, RETRY_BACKOFF_SECS};
use polymind::lifecycle::{Actor, ActorFailure, StepOutcome};
use polymind::marketdata::MarketDataActor;
use polymind::messages::{MarketDataRequest, Order, PolyMarketEvent, RawNews};
use polymind::rss::RssActor;

fn news(title: &str) -> RawNews {
    RawNews {
        url: String::new(),
        title: title.to_string(),
        description: String::new(),
        feed: "t".to_string(),
        published: None,
        labels: Vec::new(),
    }
}

#[test]
fn market_data_actor_answers_each_request() {
    let mut bus = Bus::new();
    let mut actor = MarketDataActor::new(&bus.market_data_request);
    actor.begin();
    let mut watcher = bus.market_data.subscribe();

    bus.market_data_request
        .publish(MarketDataRequest { market_id: "mkt-7".to_string() })
        .unwrap();

    let r = actor.poll(&bus.market_data_request, &mut bus.market_data, false);
    assert_eq!(r, StepOutcome::Continue);
    match bus.market_data.recv(&mut watcher) {
        RecvOutcome::Received(snap) => assert_eq!(snap.market_id, "mkt-7"),
        _ => panic!("expected the answering snapshot"),
    }

    let r = actor.poll(&bus.market_data_request, &mut bus.market_data, false);
    assert_eq!(r, StepOutcome::Idle);
}

#[test]
fn market_data_actor_stops_cleanly_on_shutdown_even_with_work_ready() {
    let mut bus = Bus::new();
    let mut actor = MarketDataActor::new(&bus.market_data_request);
    actor.begin();
    bus.market_data_request
        .publish(MarketDataRequest { market_id: "m".to_string() })
        .unwrap();
    let r = actor.poll(&bus.market_data_request, &mut bus.market_data, true);
    assert_eq!(r, StepOutcome::StopClean);
    assert_eq!(bus.market_data.published_len(), 0);
}

#[test]
fn market_data_actor_fails_only_on_a_closed_channel() {
    let mut bus = Bus::new();
    let mut actor = MarketDataActor::new(&bus.market_data_request);
    actor.begin();
    bus.market_data_request.close();
    let r = actor.poll(&bus.market_data_request, &mut bus.market_data, false);
    assert_eq!(r, StepOutcome::StopFailed(ActorFailure::ChannelClosed));
}

#[test]
fn consumer_event_decisions_stand_alone() {
    let bus = Bus::new();
    let mut actor = MarketDataActor::new(&bus.market_data_request);
    actor.begin();

    let req = MarketDataRequest { market_id: "mkt-9".to_string() };
    let (reply, outcome) = actor.on_event(RecvOutcome::Received(req));
    assert_eq!(outcome, StepOutcome::Continue);
    assert_eq!(reply.expect("a request is answered").market_id, "mkt-9");

    let (reply, outcome) = actor.on_event(RecvOutcome::Lagged(4));
    assert!(reply.is_none());
    assert_eq!(outcome, StepOutcome::Continue);

    let (reply, outcome) = actor.on_event(RecvOutcome::Pending);
    assert!(reply.is_none());
    assert_eq!(outcome, StepOutcome::Idle);

    let (reply, outcome) = actor.on_event(RecvOutcome::Closed);
    assert!(reply.is_none());
    assert_eq!(outcome, StepOutcome::StopFailed(ActorFailure::ChannelClosed));
}

#[test]
fn execution_actor_fills_each_order() {
    let mut bus = Bus::new();
    let mut actor = ExecutionActor::new(&bus.orders);
    actor.begin();
    let mut watcher = bus.executions.subscribe();

    bus.orders
        .publish(Order {
            client_order_id: "ord-1".to_string(),
            market_id: "mkt-1".to_string(),
            price: 0,
            size: 0,
        })
        .unwrap();

    let r = actor.poll(&bus.orders, &mut bus.executions, false);
    assert_eq!(r, StepOutcome::Continue);
    match bus.executions.recv(&mut watcher) {
        RecvOutcome::Received(fill) => {
            assert_eq!(fill.client_order_id, "ord-1");
            assert_eq!(fill.market_id, "mkt-1");
        },
        _ => panic!("expected the fill report"),
    }
}

#[test]
fn producer_tick_publishes_the_whole_batch() {
    let mut bus = Bus::new();
    let mut actor = AltDataActor::new();
    actor.begin();
    let mut watcher = bus.polymarket_events.subscribe();
    let batch = vec![
        PolyMarketEvent { id: "e1".to_string(), title: None, description: None, markets: None },
        PolyMarketEvent { id: "e2".to_string(), title: None, description: None, markets: None },
    ];
    let r = actor.on_tick(&mut bus.polymarket_events, Ok(batch));
    assert_eq!(r, StepOutcome::Continue);
    for id in ["e1", "e2"] {
        match bus.polymarket_events.recv(&mut watcher) {
            RecvOutcome::Received(e) => assert_eq!(e.id, id),
            _ => panic!("expected the batch in order"),
        }
    }
}

#[test]
fn producer_backs_off_after_a_failed_fetch_and_keeps_running() {
    let mut bus = Bus::new();
    let mut actor = AltDataActor::new();
    actor.begin();
    let r = actor.on_tick(&mut bus.polymarket_events, Err(FetchError::Network));
    assert_eq!(r, StepOutcome::Backoff(RETRY_BACKOFF_SECS));
    assert_eq!(bus.polymarket_events.published_len(), 0);

    let r = actor.on_tick(&mut bus.polymarket_events, Ok(Vec::new()));
    assert_eq!(r, StepOutcome::Continue);
}

#[test]
fn feed_and_headline_actors_back_off_on_a_failed_fetch() {
    let mut bus = Bus::new();
    let mut rss_actor = RssActor::new();
    rss_actor.begin();
    let r = rss_actor.on_tick(&mut bus.raw_news, Err(FetchError::BadStatus));
    assert_eq!(r, StepOutcome::Backoff(RETRY_BACKOFF_SECS));

    let mut fj_actor = FinJuiceActor::new();
    fj_actor.begin();
    let r = fj_actor.on_tick(&mut bus.raw_news, Err(FetchError::Network));
    assert_eq!(r, StepOutcome::Backoff(RETRY_BACKOFF_SECS));
    assert_eq!(bus.raw_news.published_len(), 0);

    let r = rss_actor.on_tick(&mut bus.raw_news, Ok(vec![news("a"), news("b")]));
    assert_eq!(r, StepOutcome::Continue);
    assert_eq!(bus.raw_news.published_len(), 2);
}

#[test]
fn every_actor_stops_cleanly_when_cancelled() {
    let bus = Bus::new();
    let mut a1 = AltDataActor::new();
    let mut a2 = RssActor::new();
    let mut a3 = FinJuiceActor::new();
    let mut a4 = MarketDataActor::new(&bus.market_data_request);
    let mut a5 = ExecutionActor::new(&bus.orders);
    a1.begin();
    a2.begin();
    a3.begin();
    a4.begin();
    a5.begin();
    assert_eq!(a1.on_cancelled(), StepOutcome::StopClean);
    assert_eq!(a2.on_cancelled(), StepOutcome::StopClean);
    assert_eq!(a3.on_cancelled(), StepOutcome::StopClean);
    assert_eq!(a4.on_cancelled(), StepOutcome::StopClean);
    assert_eq!(a5.on_cancelled(), StepOutcome::StopClean);
}
