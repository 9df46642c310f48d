//! Wire-format tests: exact frames out, exact control parses in.

use market_feed::event::{Event, Level, Side};
use market_feed::num::{
    format_centi, format_e8, format_i64, format_u64, parse_decimal_centi, parse_decimal_scaled,
    parse_u64,
};
use market_feed::wire::{parse_control_frame, serialize_event};

#[test]
fn format_u64_exact() {
    assert_eq!(format_u64(0), "0");
    assert_eq!(format_u64(7), "7");
    assert_eq!(format_u64(10), "10");
    assert_eq!(format_u64(500), "500");
    assert_eq!(format_u64(18446744073709551615), "18446744073709551615");
}

#[test]
fn format_i64_exact() {
    assert_eq!(format_i64(0), "0");
    assert_eq!(format_i64(1000), "1000");
    assert_eq!(format_i64(-1), "-1");
    assert_eq!(format_i64(-9223372036854775808), "-9223372036854775808");
    assert_eq!(format_i64(9223372036854775807), "9223372036854775807");
}

#[test]
fn format_centi_exact() {
    assert_eq!(format_centi(4500012), "45000.12");
    assert_eq!(format_centi(4500010), "45000.10");
    assert_eq!(format_centi(5), "0.05");
    assert_eq!(format_centi(0), "0.00");
    assert_eq!(format_centi(100), "1.00");
}

#[test]
fn parse_decimal_centi_accepts_decimals() {
    assert_eq!(parse_decimal_centi("45000.12"), Some(4500012));
    assert_eq!(parse_decimal_centi("45123.45000000"), Some(4512345));
    assert_eq!(parse_decimal_centi("120"), Some(12000));
    assert_eq!(parse_decimal_centi("0.1"), Some(10));
    assert_eq!(parse_decimal_centi("0.05"), Some(5));
    assert_eq!(parse_decimal_centi("1234.56789"), Some(123456));
}

#[test]
fn parse_decimal_centi_rejects_malformed() {
    assert_eq!(parse_decimal_centi(""), None);
    assert_eq!(parse_decimal_centi("."), None);
    assert_eq!(parse_decimal_centi("123."), None);
    assert_eq!(parse_decimal_centi(".5"), None);
    assert_eq!(parse_decimal_centi("12a"), None);
    assert_eq!(parse_decimal_centi("1.2.3"), None);
    assert_eq!(parse_decimal_centi("-5"), None);
    assert_eq!(parse_decimal_centi("99999999999999999999999999"), None);
}

#[test]
fn centi_rendering_round_trips() {
    // the two-decimal rendering is lossless
    for x in [0u64, 1, 5, 99, 100, 12345, 4500012, 18446744073709551615] {
        assert_eq!(parse_decimal_centi(&format_centi(x)), Some(x));
    }
}

#[test]
fn format_e8_exact() {
    assert_eq!(format_e8(150000000), "1.50000000");
    assert_eq!(format_e8(500000), "0.00500000");
    assert_eq!(format_e8(0), "0.00000000");
    assert_eq!(format_e8(25000000), "0.25000000");
}

#[test]
fn parse_decimal_scaled_reads_any_wire_scale() {
    assert_eq!(parse_decimal_scaled("1.5", 8), Some(150000000));
    assert_eq!(parse_decimal_scaled("0.005", 8), Some(500000));
    assert_eq!(parse_decimal_scaled("0.00000001", 8), Some(1));
    // below the scale's own step the reading truncates to zero
    assert_eq!(parse_decimal_scaled("0.000000001", 8), Some(0));
    assert_eq!(parse_decimal_scaled("45123.45", 0), Some(45123));
    assert_eq!(parse_decimal_scaled("45000.12", 2), Some(4500012));
    assert_eq!(parse_decimal_scaled("junk", 8), None);
}

#[test]
fn e8_rendering_round_trips() {
    for x in [0u64, 1, 500000, 150000000, 123456789012345] {
        assert_eq!(parse_decimal_scaled(&format_e8(x), 8), Some(x));
    }
}

#[test]
fn symbols_are_escaped_in_frames() {
    let ev = Event::Price {
        symbol: String::from("A\"B\\C"),
        price_centi: 100,
        volume: 1,
        ts_micros: 0,
    };
    assert_eq!(
        serialize_event(&ev),
        "{\"type\":\"price\",\"symbol\":\"A\\\"B\\\\C\",\"price\":1.00,\"volume\":1,\"ts\":0}"
    );
    let v: serde_json::Value = serde_json::from_str(&serialize_event(&ev)).unwrap();
    assert_eq!(v["symbol"], "A\"B\\C");
}

#[test]
fn parse_u64_exact() {
    assert_eq!(parse_u64("0"), Some(0));
    assert_eq!(parse_u64("50"), Some(50));
    assert_eq!(parse_u64("18446744073709551615"), Some(18446744073709551615));
    assert_eq!(parse_u64("18446744073709551616"), None);
    assert_eq!(parse_u64(""), None);
    assert_eq!(parse_u64("5x"), None);
}

#[test]
fn price_frame_exact() {
    let ev = Event::Price {
        symbol: String::from("BTC/USD"),
        price_centi: 4500012,
        volume: 500,
        ts_micros: 1000,
    };
    assert_eq!(
        serialize_event(&ev),
        "{\"type\":\"price\",\"symbol\":\"BTC/USD\",\"price\":45000.12,\"volume\":500,\"ts\":1000}"
    );
}

#[test]
fn trade_frame_exact() {
    let ev = Event::Trade {
        symbol: String::from("ETH/USD"),
        price_centi: 250000,
        size_e8: 150000000,
        side: Side::Sell,
        ts_micros: 2000,
    };
    assert_eq!(
        serialize_event(&ev),
        "{\"type\":\"trade\",\"symbol\":\"ETH/USD\",\"price\":2500.00,\"size\":1.50000000,\"side\":\"sell\",\"ts\":2000}"
    );
}

#[test]
fn book_frame_exact() {
    let ev = Event::BookDepth {
        symbol: String::from("BTC/USD"),
        bids: vec![
            Level { price_centi: 4500000, size_centi: 10 },
            Level { price_centi: 4499550, size_centi: 20 },
        ],
        asks: vec![
            Level { price_centi: 4500000, size_centi: 30 },
            Level { price_centi: 4500450, size_centi: 40 },
        ],
        ts_micros: 3000,
    };
    assert_eq!(
        serialize_event(&ev),
        "{\"type\":\"book\",\"symbol\":\"BTC/USD\",\"bids\":[[45000.00,0.10],[44995.50,0.20]],\"asks\":[[45000.00,0.30],[45004.50,0.40]],\"ts\":3000}"
    );
}

#[test]
fn system_frame_exact() {
    let ev = Event::SystemMetric {
        cpu_centi_pct: 4550,
        mem_mb: 1024,
        msg_rate: 777,
        ts_micros: 4000,
    };
    assert_eq!(
        serialize_event(&ev),
        "{\"type\":\"system\",\"cpu_pct\":45.50,\"mem_mb\":1024,\"msg_rate\":777,\"ts\":4000}"
    );
}

#[test]
fn control_frame_accepts_plain_object() {
    assert_eq!(parse_control_frame("{\"frequency_ms\":5}"), Some(5));
    assert_eq!(parse_control_frame("{\"frequency_ms\": 5}"), Some(5));
    assert_eq!(parse_control_frame("  { \"frequency_ms\" : 250 }  "), Some(250));
    assert_eq!(parse_control_frame("{\"frequency_ms\":1000}"), Some(1000));
    assert_eq!(parse_control_frame("\t{\"frequency_ms\":0}\n"), Some(0));
}

#[test]
fn control_frame_ignores_other_shapes() {
    assert_eq!(parse_control_frame(""), None);
    assert_eq!(parse_control_frame("hello"), None);
    assert_eq!(parse_control_frame("{\"freq\":5}"), None);
    assert_eq!(parse_control_frame("{\"frequency_ms\":-5}"), None);
    assert_eq!(parse_control_frame("{\"frequency_ms\":}"), None);
    assert_eq!(parse_control_frame("{\"frequency_ms\":5"), None);
    assert_eq!(parse_control_frame("{\"frequency_ms\":5} trailing"), None);
    assert_eq!(parse_control_frame("[5]"), None);
    assert_eq!(
        parse_control_frame("{\"frequency_ms\": 99999999999999999999999}"),
        None
    );
}

#[test]
fn outbound_frame_survives_a_json_round_trip() {
    // end-to-end shape check with a real JSON reader on the consuming side
    let ev = Event::Price {
        symbol: String::from("BTC/USD"),
        price_centi: 4500012,
        volume: 500,
        ts_micros: 1000,
    };
    let frame = serialize_event(&ev);
    let v: serde_json::Value = serde_json::from_str(&frame).unwrap();
    assert_eq!(v["type"], "price");
    assert_eq!(v["symbol"], "BTC/USD");
    assert_eq!(v["price"].as_f64().unwrap(), 45000.12);
    assert_eq!(v["volume"].as_u64().unwrap(), 500);
    assert_eq!(v["ts"].as_i64().unwrap(), 1000);
}
