//! The subscriber-facing wire protocol.
//!
//! Server-to-client frames are UTF-8 JSON, one canonical event per frame,
//! discriminated by a `"type"` field; client-to-server frames are control
//! objects of the shape `{"frequency_ms": <integer>}`.  Both directions are
//! pinned down here: `frame_chars` is the exact text of an outbound frame,
//! and `spec_control_frame` the exact meaning of an inbound one.

use vstd::prelude::*;
use vstd::string::StrSliceExecFns;
use vstd::string::StringExecFns;

use crate::event::Event;
use crate::event::Level;
use crate::event::Side;
use crate::num::dec_val;
use crate::num::format_centi;
use crate::num::format_e8;
use crate::num::format_i64;
use crate::num::format_u64;
use crate::num::spec_centi_chars;
use crate::num::spec_e8_chars;
use crate::num::spec_i64_chars;
use crate::num::spec_u64_chars;

verus! {

/// The wire text of a trade side.
pub open spec fn side_chars(s: Side) -> Seq<char> {
    match s {
        Side::Buy => "buy"@,
        Side::Sell => "sell"@,
    }
}

/// The wire text of one book level: a two-element JSON array.
pub open spec fn level_chars(l: Level) -> Seq<char> {
    "["@ + spec_centi_chars(l.price_centi as nat) + ","@ + spec_centi_chars(l.size_centi as nat)
        + "]"@
}

/// The wire text of a run of book levels, comma-separated.
pub open spec fn levels_chars(ls: Seq<Level>) -> Seq<char>
    decreases ls.len(),
{
    if ls.len() == 0 {
        Seq::empty()
    } else if ls.len() == 1 {
        level_chars(ls[0])
    } else {
        levels_chars(ls.drop_last()) + ","@ + level_chars(ls.last())
    }
}

/// How one character stands inside a JSON string: quotes and backslashes
/// get a backslash in front, everything else is itself.
pub open spec fn escape_char(c: char) -> Seq<char> {
    if c == '"' {
        seq!['\\', '"']
    } else if c == '\\' {
        seq!['\\', '\\']
    } else {
        seq![c]
    }
}

/// A whole string escaped for embedding inside a JSON string.
pub open spec fn escape_chars(s: Seq<char>) -> Seq<char>
    decreases s.len(),
{
    if s.len() == 0 {
        Seq::empty()
    } else {
        escape_chars(s.drop_last()) + escape_char(s.last())
    }
}

/// Escaping one more character appends its escape.
proof fn lemma_escape_chars_snoc(s: Seq<char>, i: int)
    requires
        0 <= i < s.len(),
    ensures
        escape_chars(s.take(i + 1)) == escape_chars(s.take(i)) + escape_char(s[i]),
{
    assert(s.take(i + 1).drop_last() =~= s.take(i));
    assert(s.take(i + 1).last() == s[i]);
}

/// Append a symbol, escaped for the inside of a JSON string.
fn append_escaped(out: &mut String, sym: &str)
    ensures
        final(out)@ == old(out)@ + escape_chars(sym@),
{
    let n = sym.unicode_len();
    let mut i: usize = 0;
    proof {
        assert(sym@.take(0) =~= Seq::<char>::empty());
    }
    while i < n
        invariant
            0 <= i <= n,
            n == sym@.len(),
            out@ == old(out)@ + escape_chars(sym@.take(i as int)),
        decreases n - i,
    {
        let c = sym.get_char(i);
        if c == '"' {
            out.append("\\\"");
            proof {
                reveal_strlit("\\\"");
            }
        } else if c == '\\' {
            out.append("\\\\");
            proof {
                reveal_strlit("\\\\");
            }
        } else {
            let piece = sym.substring_char(i, i + 1);
            out.append(piece);
        }
        proof {
            lemma_escape_chars_snoc(sym@, i as int);
            assert(out@ =~= old(out)@ + escape_chars(sym@.take(i + 1)));
        }
        i = i + 1;
    }
    proof {
        assert(sym@.take(n as int) =~= sym@);
    }
}

/// The exact text of the frame that carries an event.
pub open spec fn frame_chars(e: Event) -> Seq<char> {
    match e {
        Event::Price { symbol, price_centi, volume, ts_micros } => "{\"type\":\"price\",\"symbol\":\""@
            + escape_chars(symbol@) + "\",\"price\":"@ + spec_centi_chars(price_centi as nat) + ",\"volume\":"@
            + spec_u64_chars(volume as nat) + ",\"ts\":"@ + spec_i64_chars(ts_micros as int)
            + "}"@,
        Event::Trade { symbol, price_centi, size_e8, side, ts_micros } => "{\"type\":\"trade\",\"symbol\":\""@
            + escape_chars(symbol@) + "\",\"price\":"@ + spec_centi_chars(price_centi as nat)
            + ",\"size\":"@ + spec_e8_chars(size_e8 as nat) + ",\"side\":\""@ + side_chars(side)
            + "\",\"ts\":"@ + spec_i64_chars(ts_micros as int) + "}"@,
        Event::BookDepth { symbol, bids, asks, ts_micros } => "{\"type\":\"book\",\"symbol\":\""@
            + escape_chars(symbol@) + "\",\"bids\":["@ + levels_chars(bids@) + "],\"asks\":["@
            + levels_chars(asks@) + "],\"ts\":"@ + spec_i64_chars(ts_micros as int) + "}"@,
        Event::SystemMetric { cpu_centi_pct, mem_mb, msg_rate, ts_micros } => "{\"type\":\"system\",\"cpu_pct\":"@
            + spec_centi_chars(cpu_centi_pct as nat) + ",\"mem_mb\":"@
            + spec_u64_chars(mem_mb as nat) + ",\"msg_rate\":"@ + spec_u64_chars(msg_rate as nat)
            + ",\"ts\":"@ + spec_i64_chars(ts_micros as int) + "}"@,
    }
}

/// Extending a run of levels by one appends a comma (after the first) and
/// the new level's text.
proof fn lemma_levels_chars_snoc(ls: Seq<Level>, i: int)
    requires
        0 <= i < ls.len(),
    ensures
        i == 0 ==> levels_chars(ls.take(1)) == level_chars(ls[0]),
        i > 0 ==> levels_chars(ls.take(i + 1)) == levels_chars(ls.take(i)) + ","@ + level_chars(
            ls[i],
        ),
{
    assert(ls.take(i + 1).drop_last() =~= ls.take(i));
    assert(ls.take(i + 1).last() == ls[i]);
    if i == 0 {
        assert(levels_chars(ls.take(1)) == level_chars(ls.take(1)[0]));
    }
}

/// Append the wire text of every level in `v`, comma-separated.
fn append_levels(s: &mut String, v: &Vec<Level>)
    ensures
        final(s)@ == old(s)@ + levels_chars(v@),
{
    let mut i: usize = 0;
    while i < v.len()
        invariant
            0 <= i <= v@.len(),
            s@ == old(s)@ + levels_chars(v@.take(i as int)),
        decreases v@.len() - i,
    {
        if i > 0 {
            s.append(",");
        }
        let l = v[i];
        s.append("[");
        let p = format_centi(l.price_centi);
        s.append(p.as_str());
        s.append(",");
        let z = format_centi(l.size_centi);
        s.append(z.as_str());
        s.append("]");
        proof {
            lemma_levels_chars_snoc(v@, i as int);
            assert(s@ =~= old(s)@ + levels_chars(v@.take(i + 1)));
        }
        i = i + 1;
    }
    proof {
        assert(v@.take(v@.len() as int) =~= v@);
    }
}

/// JSON whitespace.
pub open spec fn is_ws(c: char) -> bool {
    c == ' ' || c == '\t' || c == '\n' || c == '\r'
}

/// The first position at or after `i` that does not hold whitespace.
pub open spec fn skip_ws(s: Seq<char>, i: int) -> int
    decreases s.len() - i,
{
    if 0 <= i < s.len() && is_ws(s[i]) {
        skip_ws(s, i + 1)
    } else {
        i
    }
}

/// The first position at or after `i` that does not hold a decimal digit.
pub open spec fn digits_end(s: Seq<char>, i: int) -> int
    decreases s.len() - i,
{
    if 0 <= i < s.len() && crate::num::is_dec_digit(s[i]) {
        digits_end(s, i + 1)
    } else {
        i
    }
}

/// The quoted key a control frame must carry.
pub open spec fn control_key_chars() -> Seq<char> {
    "\"frequency_ms\""@
}

/// The meaning of an inbound frame: `Some(v)` exactly when the text is a
/// control object `{"frequency_ms": v}` with an unsigned integer value and
/// nothing else (whitespace aside); `None` for every other shape.
pub open spec fn spec_control_frame(s: Seq<char>) -> Option<nat> {
    let i0 = skip_ws(s, 0);
    if !(i0 < s.len() && s[i0] == '{') {
        None
    } else {
        let i1 = skip_ws(s, i0 + 1);
        let k = i1 + control_key_chars().len();
        if !(k <= s.len() && s.subrange(i1, k) == control_key_chars()) {
            None
        } else {
            let i2 = skip_ws(s, k);
            if !(i2 < s.len() && s[i2] == ':') {
                None
            } else {
                let i3 = skip_ws(s, i2 + 1);
                let i4 = digits_end(s, i3);
                if i4 == i3 {
                    None
                } else {
                    let i5 = skip_ws(s, i4);
                    if !(i5 < s.len() && s[i5] == '}' && skip_ws(s, i5 + 1) == s.len()) {
                        None
                    } else {
                        Some(dec_val(s.subrange(i3, i4)))
                    }
                }
            }
        }
    }
}

/// Decide whether a character is JSON whitespace.
fn is_ws_char(c: char) -> (r: bool)
    ensures
        r == is_ws(c),
{
    c == ' ' || c == '\t' || c == '\n' || c == '\r'
}

/// Walk past whitespace, landing exactly where `skip_ws` says.
fn skip_ws_from(s: &str, from: usize, n: usize) -> (j: usize)
    requires
        n == s@.len(),
        from <= n,
    ensures
        from <= j <= n,
        j == skip_ws(s@, from as int),
        j == n || !is_ws(s@[j as int]),
{
    let mut i = from;
    loop
        invariant
            from <= i <= n,
            n == s@.len(),
            skip_ws(s@, from as int) == skip_ws(s@, i as int),
        ensures
            from <= i <= n,
            i == skip_ws(s@, from as int),
            i == n || !is_ws(s@[i as int]),
        decreases n - i,
    {
        if i == n {
            break;
        }
        let c = s.get_char(i);
        if !is_ws_char(c) {
            break;
        }
        i = i + 1;
    }
    i
}

/// Parse an inbound frame as a control object.  Returns the raw requested
/// interval on exactly the frames `spec_control_frame` accepts (and whose
/// value fits in a `u64`); anything else is `None` and is to be ignored.
pub fn parse_control_frame(s: &str) -> (r: Option<u64>)
    ensures
        r is Some <==> (spec_control_frame(s@) is Some && spec_control_frame(s@)->0 <= u64::MAX),
        r is Some ==> r->0 == spec_control_frame(s@)->0,
{
    proof {
        reveal_strlit("\"frequency_ms\"");
    }
    let n = s.unicode_len();
    let i0 = skip_ws_from(s, 0, n);
    if i0 == n || s.get_char(i0) != '{' {
        return None;
    }
    let i1 = skip_ws_from(s, i0 + 1, n);
    if n - i1 < 14 {
        return None;
    }
    let sub = s.substring_char(i1, i1 + 14);
    let sub_owned = String::from_str(sub);
    let key_owned = String::from_str("\"frequency_ms\"");
    if !(sub_owned == key_owned) {
        return None;
    }
    let i2 = skip_ws_from(s, i1 + 14, n);
    if i2 == n || s.get_char(i2) != ':' {
        return None;
    }
    let i3 = skip_ws_from(s, i2 + 1, n);
    // scan the digit run, tracking its value until it no longer fits
    let mut j = i3;
    let mut acc: u64 = 0;
    let mut over = false;
    loop
        invariant
            i3 <= j <= n,
            n == s@.len(),
            digits_end(s@, i3 as int) == digits_end(s@, j as int),
            !over ==> acc == dec_val(s@.subrange(i3 as int, j as int)),
            over ==> dec_val(s@.subrange(i3 as int, j as int)) > u64::MAX,
        ensures
            i3 <= j <= n,
            n == s@.len(),
            j == digits_end(s@, i3 as int),
            !over ==> acc == dec_val(s@.subrange(i3 as int, j as int)),
            over ==> dec_val(s@.subrange(i3 as int, j as int)) > u64::MAX,
        decreases n - j,
    {
        if j == n {
            break;
        }
        let c = s.get_char(j);
        if !crate::num::is_digit_char(c) {
            break;
        }
        let d = crate::num::digit_value(c);
        proof {
            assert(s@.subrange(i3 as int, j + 1).drop_last() =~= s@.subrange(
                i3 as int,
                j as int,
            ));
            assert(dec_val(s@.subrange(i3 as int, j + 1)) == dec_val(
                s@.subrange(i3 as int, j as int),
            ) * 10 + d);
        }
        if !over {
            if acc > (u64::MAX - d) / 10 {
                over = true;
            } else {
                acc = acc * 10 + d;
            }
        }
        j = j + 1;
    }
    if j == i3 {
        return None;
    }
    let i5 = skip_ws_from(s, j, n);
    if i5 == n || s.get_char(i5) != '}' {
        return None;
    }
    let i6 = skip_ws_from(s, i5 + 1, n);
    if i6 != n {
        return None;
    }
    if over {
        return None;
    }
    Some(acc)
}

/// Serialize an event into the one frame `frame_chars` promises.
pub fn serialize_event(e: &Event) -> (r: String)
    ensures
        r@ == frame_chars(*e),
{
    match e {
        Event::Price { symbol, price_centi, volume, ts_micros } => {
            let mut s = String::from_str("{\"type\":\"price\",\"symbol\":\"");
            append_escaped(&mut s, symbol.as_str());
            s.append("\",\"price\":");
            let p = format_centi(*price_centi);
            s.append(p.as_str());
            s.append(",\"volume\":");
            let v = format_u64(*volume);
            s.append(v.as_str());
            s.append(",\"ts\":");
            let t = format_i64(*ts_micros);
            s.append(t.as_str());
            s.append("}");
            proof {
                assert(s@ =~= frame_chars(*e));
            }
            s
        },
        Event::Trade { symbol, price_centi, size_e8, side, ts_micros } => {
            let mut s = String::from_str("{\"type\":\"trade\",\"symbol\":\"");
            append_escaped(&mut s, symbol.as_str());
            s.append("\",\"price\":");
            let p = format_centi(*price_centi);
            s.append(p.as_str());
            s.append(",\"size\":");
            let z = format_e8(*size_e8);
            s.append(z.as_str());
            s.append(",\"side\":\"");
            match side {
                Side::Buy => s.append("buy"),
                Side::Sell => s.append("sell"),
            }
            s.append("\",\"ts\":");
            let t = format_i64(*ts_micros);
            s.append(t.as_str());
            s.append("}");
            proof {
                assert(s@ =~= frame_chars(*e));
            }
            s
        },
        Event::BookDepth { symbol, bids, asks, ts_micros } => {
            let mut s = String::from_str("{\"type\":\"book\",\"symbol\":\"");
            append_escaped(&mut s, symbol.as_str());
            s.append("\",\"bids\":[");
            append_levels(&mut s, bids);
            s.append("],\"asks\":[");
            append_levels(&mut s, asks);
            s.append("],\"ts\":");
            let t = format_i64(*ts_micros);
            s.append(t.as_str());
            s.append("}");
            proof {
                assert(s@ =~= frame_chars(*e));
            }
            s
        },
        Event::SystemMetric { cpu_centi_pct, mem_mb, msg_rate, ts_micros } => {
            let mut s = String::from_str("{\"type\":\"system\",\"cpu_pct\":");
            let c = format_centi(*cpu_centi_pct);
            s.append(c.as_str());
            s.append(",\"mem_mb\":");
            let m = format_u64(*mem_mb);
            s.append(m.as_str());
            s.append(",\"msg_rate\":");
            let r = format_u64(*msg_rate);
            s.append(r.as_str());
            s.append(",\"ts\":");
            let t = format_i64(*ts_micros);
            s.append(t.as_str());
            s.append("}");
            proof {
                assert(s@ =~= frame_chars(*e));
            }
            s
        },
    }
}

} // verus!
