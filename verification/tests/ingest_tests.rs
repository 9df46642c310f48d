//! Translation tests against real upstream-shaped JSON, run with the real
//! JSON reader linked in.

use market_feed::event::{Event, Side};
use market_feed::ingest::{normalize_symbol, translate_ticker, translate_trade};

#[test]
fn normalize_maps_known_pairs_and_uppercases_the_rest() {
    assert_eq!(normalize_symbol("btcusdt"), "BTC/USD");
    assert_eq!(normalize_symbol("BTCUSDT"), "BTC/USD");
    assert_eq!(normalize_symbol("ethusdt"), "ETH/USD");
    assert_eq!(normalize_symbol("solusdt"), "SOL/USD");
    assert_eq!(normalize_symbol("dogeusdt"), "DOGEUSDT");
    assert_eq!(normalize_symbol("xyzAbc"), "XYZABC");
}

#[test]
fn ticker_translates_exactly() {
    let text = "{\"e\":\"24hrTicker\",\"s\":\"BTCUSDT\",\"c\":\"45123.45000000\",\"v\":\"1234.56789\",\"h\":\"46000.0\"}";
    let ev = translate_ticker(text, 5000).expect("a well-formed ticker translates");
    match ev {
        Event::Price { symbol, price_centi, volume, ts_micros } => {
            assert_eq!(symbol, "BTC/USD");
            assert_eq!(price_centi, 4512345);
            assert_eq!(volume, 1234);
            assert_eq!(ts_micros, 5000);
        }
        _ => panic!("a ticker becomes a price event"),
    }
}

#[test]
fn ticker_passes_unknown_symbols_through_uppercased() {
    let text = "{\"s\":\"dogeusdt\",\"c\":\"0.25\",\"v\":\"10\"}";
    let ev = translate_ticker(text, 1).unwrap();
    match ev {
        Event::Price { symbol, price_centi, volume, .. } => {
            assert_eq!(symbol, "DOGEUSDT");
            assert_eq!(price_centi, 25);
            assert_eq!(volume, 10);
        }
        _ => panic!("a ticker becomes a price event"),
    }
}

#[test]
fn ticker_drops_malformed_payloads() {
    assert!(translate_ticker("not json at all", 1).is_none());
    assert!(translate_ticker("{\"c\":\"45000.0\",\"v\":\"1\"}", 1).is_none());
    assert!(translate_ticker("{\"s\":\"BTCUSDT\",\"v\":\"1\"}", 1).is_none());
    assert!(translate_ticker("{\"s\":\"BTCUSDT\",\"c\":\"45000.0\"}", 1).is_none());
    assert!(translate_ticker("{\"s\":\"BTCUSDT\",\"c\":\"abc\",\"v\":\"1\"}", 1).is_none());
    assert!(translate_ticker("{\"s\":\"BTCUSDT\",\"c\":\"45000.0\",\"v\":\"-3\"}", 1).is_none());
    assert!(translate_ticker("{\"s\":\"BTCUSDT\",\"c\":45000.0,\"v\":\"1\"}", 1).is_none());
    assert!(translate_ticker("[1,2,3]", 1).is_none());
}

#[test]
fn flat_trade_translates_with_inverted_side() {
    // taker buy: the buyer was not the maker
    let text = "{\"e\":\"trade\",\"s\":\"solusdt\",\"p\":\"120.50\",\"q\":\"1.5\",\"m\":false}";
    let ev = translate_trade(text, 42).expect("a well-formed trade translates");
    match ev {
        Event::Trade { symbol, price_centi, size_e8, side, ts_micros } => {
            assert_eq!(symbol, "SOL/USD");
            assert_eq!(price_centi, 12050);
            assert_eq!(size_e8, 150000000);
            assert_eq!(side, Side::Buy);
            assert_eq!(ts_micros, 42);
        }
        _ => panic!("a trade payload becomes a trade event"),
    }
}

#[test]
fn enveloped_trade_translates_with_maker_buy_as_sell() {
    let text = "{\"stream\":\"btcusdt@trade\",\"data\":{\"s\":\"BTCUSDT\",\"p\":\"45000.00\",\"q\":\"0.25\",\"m\":true}}";
    let ev = translate_trade(text, 43).expect("an enveloped trade translates");
    match ev {
        Event::Trade { symbol, price_centi, size_e8, side, ts_micros } => {
            assert_eq!(symbol, "BTC/USD");
            assert_eq!(price_centi, 4500000);
            assert_eq!(size_e8, 25000000);
            assert_eq!(side, Side::Sell);
            assert_eq!(ts_micros, 43);
        }
        _ => panic!("a trade payload becomes a trade event"),
    }
}

#[test]
fn trade_drops_malformed_payloads() {
    assert!(translate_trade("garbage", 1).is_none());
    assert!(translate_trade("{\"s\":\"BTCUSDT\",\"p\":\"1.0\",\"q\":\"1.0\"}", 1).is_none());
    assert!(translate_trade("{\"s\":\"BTCUSDT\",\"p\":\"1.0\",\"m\":true}", 1).is_none());
    assert!(translate_trade("{\"s\":\"BTCUSDT\",\"q\":\"1.0\",\"m\":true}", 1).is_none());
    assert!(
        translate_trade("{\"s\":\"BTCUSDT\",\"p\":\"x\",\"q\":\"1.0\",\"m\":true}", 1).is_none()
    );
    assert!(
        translate_trade("{\"s\":\"BTCUSDT\",\"p\":\"1.0\",\"q\":\"1.0\",\"m\":\"yes\"}", 1)
            .is_none()
    );
    // a genuinely zero quantity is degenerate and dropped
    assert!(
        translate_trade("{\"s\":\"BTCUSDT\",\"p\":\"1.0\",\"q\":\"0.00\",\"m\":true}", 1)
            .is_none()
    );
    // as is one below the upstream's own hundred-millionth step
    assert!(
        translate_trade("{\"s\":\"BTCUSDT\",\"p\":\"1.0\",\"q\":\"0.000000001\",\"m\":true}", 1)
            .is_none()
    );
    // an envelope whose payload is junk drops the message too
    assert!(translate_trade("{\"data\":{\"s\":\"BTCUSDT\"}}", 1).is_none());
    assert!(translate_trade("{\"data\":\"flat\"}", 1).is_none());
}

#[test]
fn sub_cent_trade_quantities_translate() {
    // sub-0.01 quantities are a large share of live trades; they must not drop
    let text = "{\"s\":\"BTCUSDT\",\"p\":\"45000.00\",\"q\":\"0.005\",\"m\":false}";
    let ev = translate_trade(text, 9).expect("a sub-cent quantity translates");
    match ev {
        Event::Trade { size_e8, side, .. } => {
            assert_eq!(size_e8, 500000);
            assert_eq!(side, Side::Buy);
        }
        _ => panic!("a trade payload becomes a trade event"),
    }
    assert!(
        market_feed::wire::serialize_event(&ev).contains("\"size\":0.00500000")
    );
}

#[test]
fn symbols_needing_escapes_still_translate() {
    // a quote inside the raw identifier survives, uppercased and escaped
    let text = "{\"s\":\"a\\\"b\",\"c\":\"1.00\",\"v\":\"1\"}";
    let ev = translate_ticker(text, 3).expect("an odd but usable symbol translates");
    match &ev {
        Event::Price { symbol, .. } => assert_eq!(symbol, "A\"B"),
        _ => panic!("a ticker becomes a price event"),
    }
    let frame = market_feed::wire::serialize_event(&ev);
    let v: serde_json::Value = serde_json::from_str(&frame).unwrap();
    assert_eq!(v["symbol"], "A\"B");
    // a control character in the identifier is malformed and drops
    let bad = "{\"s\":\"a\\u0001b\",\"c\":\"1.00\",\"v\":\"1\"}";
    assert!(translate_ticker(bad, 3).is_none());
}

#[test]
fn translated_events_serialize_to_wire_frames() {
    let text = "{\"s\":\"ethusdt\",\"c\":\"2500.00\",\"v\":\"99.9\"}";
    let ev = translate_ticker(text, 77).unwrap();
    assert_eq!(
        market_feed::wire::serialize_event(&ev),
        "{\"type\":\"price\",\"symbol\":\"ETH/USD\",\"price\":2500.00,\"volume\":99,\"ts\":77}"
    );
}
