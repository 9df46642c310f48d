//! Frequency-control round trips, generator pacing, and session decisions.

use market_feed::freq::{clamp_frequency, FrequencyControl, FREQ_DEFAULT_MS};
use market_feed::session::{session_step, SessionAction, SessionInput};
use market_feed::sim::{book_interval_ms, price_interval_ms, trade_interval_ms, METRIC_INTERVAL_MS};

#[test]
fn clamp_frequency_edges() {
    assert_eq!(clamp_frequency(0), 10);
    assert_eq!(clamp_frequency(9), 10);
    assert_eq!(clamp_frequency(10), 10);
    assert_eq!(clamp_frequency(500), 500);
    assert_eq!(clamp_frequency(1000), 1000);
    assert_eq!(clamp_frequency(1001), 1000);
    assert_eq!(clamp_frequency(u64::MAX), 1000);
}

#[test]
fn frequency_round_trip() {
    // writing any v makes subsequent reads return clamp(v, 10, 1000)
    let mut ctl = FrequencyControl::new();
    assert_eq!(ctl.read(), FREQ_DEFAULT_MS);
    for v in [0u64, 5, 10, 11, 999, 1000, 1001, 123456] {
        ctl.write(v);
        assert_eq!(ctl.read(), clamp_frequency(v));
        assert_eq!(ctl.read(), ctl.read());
    }
    ctl.write(5);
    assert_eq!(ctl.read(), 10);
}

#[test]
fn generator_intervals() {
    assert_eq!(price_interval_ms(10), 10);
    assert_eq!(price_interval_ms(50), 50);
    assert_eq!(price_interval_ms(5), 10);
    assert_eq!(book_interval_ms(10), 50);
    assert_eq!(book_interval_ms(50), 100);
    assert_eq!(trade_interval_ms(10), 50);
    assert_eq!(trade_interval_ms(50), 150);
    assert_eq!(METRIC_INTERVAL_MS, 1000);
}

#[test]
fn control_frame_floor_clamps_requested_rate() {
    // a subscriber asks for 5 ms; the next cycle runs at 10 ms, not 5
    let act = session_step(SessionInput::InboundText(String::from(
        "{\"frequency_ms\": 5}",
    )));
    let written = match act {
        SessionAction::SetFrequency(v) => v,
        _ => panic!("a valid control frame must set the frequency"),
    };
    assert_eq!(written, 10);
    let mut ctl = FrequencyControl::new();
    ctl.write(written);
    assert_eq!(price_interval_ms(ctl.read()), 10);
}

#[test]
fn session_forwards_hub_frames_verbatim() {
    let frame = String::from("{\"type\":\"price\",\"symbol\":\"BTC/USD\"}");
    match session_step(SessionInput::HubFrame(frame.clone())) {
        SessionAction::Forward(f) => assert_eq!(f, frame),
        _ => panic!("hub frames are forwarded"),
    }
}

#[test]
fn session_ignores_malformed_inbound() {
    assert!(matches!(
        session_step(SessionInput::InboundText(String::from("gibberish"))),
        SessionAction::Ignore
    ));
    assert!(matches!(
        session_step(SessionInput::InboundText(String::from("{\"other\":1}"))),
        SessionAction::Ignore
    ));
    assert!(matches!(
        session_step(SessionInput::InboundOther),
        SessionAction::Ignore
    ));
}

#[test]
fn session_lag_is_not_fatal() {
    assert!(matches!(
        session_step(SessionInput::HubLagged),
        SessionAction::Ignore
    ));
}

#[test]
fn session_terminates_on_close_or_send_failure() {
    assert!(matches!(
        session_step(SessionInput::InboundClosed),
        SessionAction::Terminate
    ));
    assert!(matches!(
        session_step(SessionInput::SendFailed),
        SessionAction::Terminate
    ));
    assert!(matches!(
        session_step(SessionInput::HubClosed),
        SessionAction::Terminate
    ));
}

#[test]
fn session_clamps_large_requests() {
    match session_step(SessionInput::InboundText(String::from(
        "{\"frequency_ms\": 500000}",
    ))) {
        SessionAction::SetFrequency(v) => assert_eq!(v, 1000),
        _ => panic!("a valid control frame must set the frequency"),
    }
}
