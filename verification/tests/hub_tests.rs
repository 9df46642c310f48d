//! Fan-out hub tests: delivery to earlier subscribers, invisibility to
//! later ones, lag resynchronization, and gap-free reads.

use market_feed::event::Event;
use market_feed::hub::{Hub, RecvOutcome};
use market_feed::wire::serialize_event;

fn frame(i: u64) -> String {
    format!("{{\"seq\":{}}}", i)
}

#[test]
fn publish_without_subscribers_is_a_noop() {
    let mut hub = Hub::new(4);
    hub.publish(String::from("lost to the void"));
    hub.publish(String::from("still fine"));
    assert_eq!(hub.len(), 2);
}

#[test]
fn subscriber_before_publish_sees_the_event() {
    let mut hub = Hub::new(8);
    let mut cursor = hub.subscribe();
    hub.publish(String::from("hello"));
    match hub.recv(&mut cursor) {
        RecvOutcome::Event(f) => assert_eq!(f, "hello"),
        _ => panic!("a subscriber from before the publish must see it"),
    }
    assert!(matches!(hub.recv(&mut cursor), RecvOutcome::Empty));
}

#[test]
fn subscriber_after_publish_does_not_see_it() {
    let mut hub = Hub::new(8);
    hub.publish(String::from("before"));
    let mut cursor = hub.subscribe();
    assert!(matches!(hub.recv(&mut cursor), RecvOutcome::Empty));
    hub.publish(String::from("after"));
    match hub.recv(&mut cursor) {
        RecvOutcome::Event(f) => assert_eq!(f, "after"),
        _ => panic!("fresh events still arrive"),
    }
}

#[test]
fn every_earlier_subscriber_sees_a_publish() {
    let mut hub = Hub::new(8);
    let mut a = hub.subscribe();
    let mut b = hub.subscribe();
    let mut c = hub.subscribe();
    hub.publish(String::from("fanout"));
    for cur in [&mut a, &mut b, &mut c] {
        match hub.recv(cur) {
            RecvOutcome::Event(f) => assert_eq!(f, "fanout"),
            _ => panic!("every subscriber from before the publish sees it"),
        }
    }
}

#[test]
fn keeping_up_reader_sees_every_event_in_order() {
    let mut hub = Hub::new(4);
    let mut cursor = hub.subscribe();
    for i in 0..20u64 {
        hub.publish(frame(i));
        match hub.recv(&mut cursor) {
            RecvOutcome::Event(f) => assert_eq!(f, frame(i)),
            _ => panic!("a reader that keeps up never lags and never skips"),
        }
    }
    assert!(matches!(hub.recv(&mut cursor), RecvOutcome::Empty));
}

#[test]
fn lagging_reader_skips_forward_and_recovers() {
    // two subscribers; one stops reading for longer than the hub retains
    let mut hub = Hub::new(5);
    let mut active = hub.subscribe();
    let mut lazy = hub.subscribe();
    for i in 0..12u64 {
        hub.publish(frame(i));
        match hub.recv(&mut active) {
            RecvOutcome::Event(f) => assert_eq!(f, frame(i)),
            _ => panic!("the active reader observed every event with no gaps"),
        }
    }
    // the lazy reader fell 12 behind with only 5 retained: 7 were evicted
    match hub.recv(&mut lazy) {
        RecvOutcome::Lagged(k) => assert_eq!(k, 7),
        _ => panic!("a reader behind the retained window lags"),
    }
    // it resumes at the oldest retained event and reads on, gap-free
    for i in 7..12u64 {
        match hub.recv(&mut lazy) {
            RecvOutcome::Event(f) => assert_eq!(f, frame(i)),
            _ => panic!("after the lag the retained tail is readable"),
        }
    }
    assert!(matches!(hub.recv(&mut lazy), RecvOutcome::Empty));
    // and it still receives subsequent fresh events
    hub.publish(frame(12));
    match hub.recv(&mut lazy) {
        RecvOutcome::Event(f) => assert_eq!(f, frame(12)),
        _ => panic!("a lagged reader still receives fresh events"),
    }
}

#[test]
fn eviction_keeps_only_the_newest_frames() {
    let mut hub = Hub::new(2);
    let mut cursor = hub.subscribe();
    hub.publish(frame(0));
    hub.publish(frame(1));
    hub.publish(frame(2));
    match hub.recv(&mut cursor) {
        RecvOutcome::Lagged(k) => assert_eq!(k, 1),
        _ => panic!("one frame was evicted"),
    }
    match hub.recv(&mut cursor) {
        RecvOutcome::Event(f) => assert_eq!(f, frame(1)),
        _ => panic!("the oldest retained frame comes first"),
    }
    match hub.recv(&mut cursor) {
        RecvOutcome::Event(f) => assert_eq!(f, frame(2)),
        _ => panic!("then the newest"),
    }
}

#[test]
fn subscribe_then_publish_price_round_trip() {
    // end-to-end: subscribe, publish one price frame, receive exactly it,
    // and deserialize it back to the published structure
    let mut hub = Hub::new(market_feed::hub::HUB_DEFAULT_CAPACITY);
    let mut cursor = hub.subscribe();
    let ev = Event::Price {
        symbol: String::from("BTC/USD"),
        price_centi: 4500012,
        volume: 500,
        ts_micros: 1000,
    };
    hub.publish(serialize_event(&ev));
    let got = match hub.recv(&mut cursor) {
        RecvOutcome::Event(f) => f,
        _ => panic!("the subscriber receives the one frame"),
    };
    assert!(matches!(hub.recv(&mut cursor), RecvOutcome::Empty));
    let v: serde_json::Value = serde_json::from_str(&got).unwrap();
    assert_eq!(v["type"], "price");
    assert_eq!(v["symbol"], "BTC/USD");
    assert_eq!(v["price"].as_f64().unwrap(), 45000.12);
    assert_eq!(v["volume"].as_u64().unwrap(), 500);
    assert_eq!(v["ts"].as_i64().unwrap(), 1000);
}
