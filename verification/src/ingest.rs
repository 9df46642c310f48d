//! Translation of live upstream feed payloads into canonical events.
//!
//! An exchange feed delivers JSON text whose shape this module does not
//! control: a flat ticker object with string-encoded numbers, and a trade
//! object that may arrive nested inside a combined-stream envelope under a
//! `"data"` key.  Field extraction goes through `serde_json` behind trusted
//! wrappers whose results are named functions of the text alone; everything
//! after extraction — the two-case envelope parse, symbol normalization,
//! exact-decimal parsing, side inversion — is verified.  A missing or
//! malformed field drops that single message, never the connection.

use vstd::prelude::*;
use vstd::string::StringExecFns;

use crate::event::Event;
use crate::event::Side;
use crate::event::check_wire_symbol;
use crate::event::wire_symbol;
use crate::num::dec_string_centi;
use crate::num::dec_string_scaled;
use crate::num::dec_string_wf;
use crate::num::parse_decimal_centi;
use crate::num::parse_decimal_scaled;

verus! {

/// The string field `key` of the JSON object written in `text`, if `text`
/// parses and carries one.
pub uninterp spec fn json_str_field(text: Seq<char>, key: Seq<char>) -> Option<Seq<char>>;

/// The boolean field `key` of the JSON object written in `text`.
pub uninterp spec fn json_bool_field(text: Seq<char>, key: Seq<char>) -> Option<bool>;

/// The field `key` of the JSON object written in `text`, re-serialized as
/// JSON text of its own.
pub uninterp spec fn json_field_text(text: Seq<char>, key: Seq<char>) -> Option<Seq<char>>;

/// The uppercase mapping of a string.
pub uninterp spec fn upper_of(s: Seq<char>) -> Seq<char>;

/// Relies on serde_json::from_str, Value::get and Value::as_str: the value
/// of the string field `key` of the JSON object written in `text`, if the
/// text parses as JSON and carries one; the result depends on the text and
/// the key alone.
#[verifier::external_body]
fn get_str_field(text: &str, key: &str) -> (r: Option<String>)
    ensures
        r is Some <==> json_str_field(text@, key@) is Some,
        r matches Some(s) ==> json_str_field(text@, key@) == Some(s@),
{
    match serde_json::from_str::<serde_json::Value>(text) {
        Ok(v) => v.get(key).and_then(|f| f.as_str()).map(|s| s.to_string()),
        Err(_) => None,
    }
}

/// Relies on serde_json::from_str, Value::get and Value::as_bool: the value
/// of the boolean field `key` of the JSON object written in `text`; the
/// result depends on the text and the key alone.
#[verifier::external_body]
fn get_bool_field(text: &str, key: &str) -> (r: Option<bool>)
    ensures
        r is Some <==> json_bool_field(text@, key@) is Some,
        r matches Some(b) ==> json_bool_field(text@, key@) == Some(b),
{
    match serde_json::from_str::<serde_json::Value>(text) {
        Ok(v) => v.get(key).and_then(|f| f.as_bool()),
        Err(_) => None,
    }
}

/// Relies on serde_json::from_str, Value::get and serde_json::to_string:
/// the field `key` of the JSON object written in `text`, re-serialized;
/// the result depends on the text and the key alone.
#[verifier::external_body]
fn get_field_text(text: &str, key: &str) -> (r: Option<String>)
    ensures
        r is Some <==> json_field_text(text@, key@) is Some,
        r matches Some(s) ==> json_field_text(text@, key@) == Some(s@),
{
    match serde_json::from_str::<serde_json::Value>(text) {
        Ok(v) => v.get(key).and_then(|f| serde_json::to_string(f).ok()),
        Err(_) => None,
    }
}

/// Relies on str::to_uppercase: the uppercase mapping depends on the
/// characters alone.
#[verifier::external_body]
fn to_upper(s: &str) -> (r: String)
    ensures
        r@ == upper_of(s@),
{
    s.to_uppercase()
}

/// How a raw upstream identifier is normalized: the fixed lookup table for
/// the known pairs, and plain uppercasing for everything else.
pub open spec fn spec_normalize_symbol(raw: Seq<char>) -> Seq<char> {
    if upper_of(raw) == "BTCUSDT"@ {
        "BTC/USD"@
    } else if upper_of(raw) == "ETHUSDT"@ {
        "ETH/USD"@
    } else if upper_of(raw) == "SOLUSDT"@ {
        "SOL/USD"@
    } else {
        upper_of(raw)
    }
}

/// Normalize a raw upstream identifier.
pub fn normalize_symbol(raw: &str) -> (r: String)
    ensures
        r@ == spec_normalize_symbol(raw@),
{
    let u = to_upper(raw);
    let btc = String::from_str("BTCUSDT");
    let eth = String::from_str("ETHUSDT");
    let sol = String::from_str("SOLUSDT");
    if u == btc {
        String::from_str("BTC/USD")
    } else if u == eth {
        String::from_str("ETH/USD")
    } else if u == sol {
        String::from_str("SOL/USD")
    } else {
        u
    }
}

/// A ticker payload translates exactly when its `s`, `c` and `v` fields are
/// present as strings, the normalized symbol is usable on the wire, and the
/// two numbers are well-formed decimals that fit.
pub open spec fn spec_ticker_ok(text: Seq<char>) -> bool {
    &&& json_str_field(text, "s"@) is Some
    &&& wire_symbol(spec_normalize_symbol(json_str_field(text, "s"@)->0))
    &&& json_str_field(text, "c"@) is Some
    &&& dec_string_wf(json_str_field(text, "c"@)->0)
    &&& dec_string_centi(json_str_field(text, "c"@)->0) <= u64::MAX
    &&& json_str_field(text, "v"@) is Some
    &&& dec_string_wf(json_str_field(text, "v"@)->0)
    &&& dec_string_scaled(json_str_field(text, "v"@)->0, 0) <= u64::MAX
}

/// Translate an upstream ticker payload into a price event, stamped with
/// the given receipt time.  The symbol comes normalized from `s`, the price
/// is the exact decimal in `c` (in hundredths), and the volume is the
/// decimal in `v` truncated to a whole number.  Anything malformed drops
/// the message.
pub fn translate_ticker(text: &str, ts: i64) -> (r: Option<Event>)
    ensures
        r is Some <==> spec_ticker_ok(text@),
        r matches Some(ev) ==> ev matches Event::Price { symbol, price_centi, volume, ts_micros }
            && symbol@ == spec_normalize_symbol(json_str_field(text@, "s"@)->0)
            && price_centi as nat == dec_string_centi(json_str_field(text@, "c"@)->0)
            && volume as nat == dec_string_scaled(json_str_field(text@, "v"@)->0, 0)
            && ts_micros == ts,
        r matches Some(ev) ==> ev.wf(),
{
    let s_raw = match get_str_field(text, "s") {
        Some(x) => x,
        None => {
            return None;
        },
    };
    let sym = normalize_symbol(s_raw.as_str());
    if !check_wire_symbol(sym.as_str()) {
        return None;
    }
    let c_raw = match get_str_field(text, "c") {
        Some(x) => x,
        None => {
            return None;
        },
    };
    let price = match parse_decimal_centi(c_raw.as_str()) {
        Some(x) => x,
        None => {
            return None;
        },
    };
    let v_raw = match get_str_field(text, "v") {
        Some(x) => x,
        None => {
            return None;
        },
    };
    let vol = match parse_decimal_scaled(v_raw.as_str(), 0) {
        Some(x) => x,
        None => {
            return None;
        },
    };
    Some(Event::Price { symbol: sym, price_centi: price, volume: vol, ts_micros: ts })
}

/// Where a trade payload's fields live: under the combined-stream `data`
/// envelope when there is one, in the frame itself otherwise.
pub open spec fn spec_trade_source(text: Seq<char>) -> Seq<char> {
    if json_field_text(text, "data"@) is Some {
        json_field_text(text, "data"@)->0
    } else {
        text
    }
}

/// A trade payload translates exactly when its source object carries `s`,
/// `p` and `q` as strings (a usable normalized symbol, two fitting
/// decimals, a positive size) and the buyer-is-maker flag `m` as a
/// boolean.  The size is read at the upstream feed's own step of a
/// hundred-millionth; only a quantity of zero at that step is degenerate
/// and dropped, so every trade event ever built has a positive size.
pub open spec fn spec_trade_ok(text: Seq<char>) -> bool {
    let t = spec_trade_source(text);
    &&& json_str_field(t, "s"@) is Some
    &&& wire_symbol(spec_normalize_symbol(json_str_field(t, "s"@)->0))
    &&& json_str_field(t, "p"@) is Some
    &&& dec_string_wf(json_str_field(t, "p"@)->0)
    &&& dec_string_centi(json_str_field(t, "p"@)->0) <= u64::MAX
    &&& json_str_field(t, "q"@) is Some
    &&& dec_string_wf(json_str_field(t, "q"@)->0)
    &&& 1 <= dec_string_scaled(json_str_field(t, "q"@)->0, 8) <= u64::MAX
    &&& json_bool_field(t, "m"@) is Some
}

/// Translate an upstream trade payload into a trade event, stamped with the
/// given receipt time.  The envelope case is tried first and the flat shape
/// second; the side inverts the buyer-is-maker flag (a maker buy is a sell
/// hitting the book, a taker buy is a buy).  Anything malformed drops the
/// message.
pub fn translate_trade(text: &str, ts: i64) -> (r: Option<Event>)
    ensures
        r is Some <==> spec_trade_ok(text@),
        r matches Some(ev) ==> ev matches Event::Trade {
            symbol,
            price_centi,
            size_e8,
            side,
            ts_micros,
        } && symbol@ == spec_normalize_symbol(json_str_field(spec_trade_source(text@), "s"@)->0)
            && price_centi as nat == dec_string_centi(
            json_str_field(spec_trade_source(text@), "p"@)->0,
        ) && size_e8 as nat == dec_string_scaled(
            json_str_field(spec_trade_source(text@), "q"@)->0,
            8,
        )
            && side == (if json_bool_field(spec_trade_source(text@), "m"@)->0 {
            Side::Sell
        } else {
            Side::Buy
        }) && ts_micros == ts,
        r matches Some(ev) ==> ev.wf(),
{
    let envelope = get_field_text(text, "data");
    let t: &str = match &envelope {
        Some(inner) => inner.as_str(),
        None => text,
    };
    let s_raw = match get_str_field(t, "s") {
        Some(x) => x,
        None => {
            return None;
        },
    };
    let sym = normalize_symbol(s_raw.as_str());
    if !check_wire_symbol(sym.as_str()) {
        return None;
    }
    let p_raw = match get_str_field(t, "p") {
        Some(x) => x,
        None => {
            return None;
        },
    };
    let price = match parse_decimal_centi(p_raw.as_str()) {
        Some(x) => x,
        None => {
            return None;
        },
    };
    let q_raw = match get_str_field(t, "q") {
        Some(x) => x,
        None => {
            return None;
        },
    };
    let size = match parse_decimal_scaled(q_raw.as_str(), 8) {
        Some(x) => x,
        None => {
            return None;
        },
    };
    if size == 0 {
        return None;
    }
    let maker_buy = match get_bool_field(t, "m") {
        Some(x) => x,
        None => {
            return None;
        },
    };
    Some(
        Event::Trade {
            symbol: sym,
            price_centi: price,
            size_e8: size,
            side: if maker_buy {
                Side::Sell
            } else {
                Side::Buy
            },
            ts_micros: ts,
        },
    )
}

} // verus!
