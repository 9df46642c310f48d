//! The canonical event model.
//!
//! Every producer, simulated or live, emits one of these four variants, and
//! every consumer receives them; nothing downstream depends on where an
//! event came from.  Money-like quantities are integer counts of hundredths
//! (`*_centi` fields), which is exactly the two-decimal precision the wire
//! format carries; timestamps are microseconds since the epoch on the
//! canonical clock.

use vstd::prelude::*;
use vstd::string::StrSliceExecFns;

verus! {

/// Which side of the book a trade hit.
#[derive(Clone, Copy, PartialEq, Eq, Structural, Debug)]
pub enum Side {
    Buy,
    Sell,
}

/// One price level of an order book: a price and the size resting there,
/// both in hundredths.
#[derive(Clone, Copy, PartialEq, Eq, Structural, Debug)]
pub struct Level {
    pub price_centi: u64,
    pub size_centi: u64,
}

/// A canonical market-data event.
pub enum Event {
    /// A price tick for one symbol.
    Price { symbol: String, price_centi: u64, volume: u64, ts_micros: i64 },
    /// A single executed trade; its size counts hundred-millionths.
    Trade { symbol: String, price_centi: u64, size_e8: u64, side: Side, ts_micros: i64 },
    /// A snapshot of the top levels of one symbol's book.
    BookDepth { symbol: String, bids: Vec<Level>, asks: Vec<Level>, ts_micros: i64 },
    /// Throughput and host figures for the process itself.
    SystemMetric { cpu_centi_pct: u64, mem_mb: u64, msg_rate: u64, ts_micros: i64 },
}

/// A character that may stand in a symbol: anything but the control
/// characters, which no JSON string can carry raw and no identifier
/// legitimately holds.  Quotes and backslashes are fine; the serializer
/// escapes them.
pub open spec fn is_symbol_char(c: char) -> bool {
    ' ' <= c
}

/// A usable symbol: nonempty and free of control characters.
pub open spec fn wire_symbol(s: Seq<char>) -> bool {
    s.len() > 0 && forall|i: int| 0 <= i < s.len() ==> is_symbol_char(#[trigger] s[i])
}

impl Event {
    /// A well-formed event: its symbol, if it has one, is usable on the
    /// wire.
    pub open spec fn wf(&self) -> bool {
        match self {
            Event::Price { symbol, .. } => wire_symbol(symbol@),
            Event::Trade { symbol, .. } => wire_symbol(symbol@),
            Event::BookDepth { symbol, .. } => wire_symbol(symbol@),
            Event::SystemMetric { .. } => true,
        }
    }
}

/// Decide whether one character may stand in a symbol.
pub fn check_symbol_char(c: char) -> (r: bool)
    ensures
        r == is_symbol_char(c),
{
    ' ' <= c
}

/// Decide whether a string is a usable symbol.
pub fn check_wire_symbol(s: &str) -> (r: bool)
    ensures
        r == wire_symbol(s@),
{
    let n = s.unicode_len();
    if n == 0 {
        return false;
    }
    let mut i: usize = 0;
    while i < n
        invariant
            0 <= i <= n,
            n == s@.len(),
            forall|m: int| 0 <= m < i ==> is_symbol_char(#[trigger] s@[m]),
        decreases n - i,
    {
        if !check_symbol_char(s.get_char(i)) {
            return false;
        }
        i = i + 1;
    }
    true
}

} // verus!
