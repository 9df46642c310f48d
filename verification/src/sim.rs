//! The simulated generators.
//!
//! Four independent producers synthesize canonical events: price ticks over
//! a bounded random walk, order-book snapshots around fixed mid-prices,
//! sporadic trades, and once-a-second system metrics.  Each generator's
//! computation is split from its randomness: the `*_with` functions take the
//! drawn numbers as arguments and pin the result exactly, while the `cycle`
//! functions draw through the trusted `rand` wrappers and promise what holds
//! of every possible draw.  Timestamps come in as arguments: the caller owns
//! the clock and the sleeps between cycles.

use vstd::prelude::*;
use vstd::arithmetic::div_mod::lemma_div_is_ordered;

use crate::event::Event;
use crate::event::Level;
use crate::event::Side;
use crate::event::wire_symbol;
use crate::freq::FREQ_MAX_MS;
use crate::wire::frame_chars;
use crate::wire::serialize_event;

verus! {

/// The largest price the walk will reach, in hundredths (well past any
/// plausible market value, and small enough that one perturbation step
/// cannot overflow a `u64`).
pub const PRICE_CENTI_MAX: u64 = 10000000000000;

/// The perturbation bound, in parts per million: one tick moves a price by
/// at most 0.2% of itself (plus sub-cent rounding).
pub const PERTURB_PPM: i64 = 2000;

/// How many symbols the price generator walks.
pub const PRICE_SYMBOL_COUNT: usize = 5;

/// Relies on rand::Rng::gen_range on the thread-local generator: a draw
/// inside the half-open range, which panics only on an empty range.
#[verifier::external_body]
fn rand_u64_in(lo: u64, hi: u64) -> (r: u64)
    requires
        lo < hi,
    ensures
        lo <= r < hi,
{
    rand::Rng::gen_range(&mut rand::thread_rng(), lo..hi)
}

/// Relies on rand::Rng::gen_range on the thread-local generator: a draw
/// inside the half-open range, which panics only on an empty range.
#[verifier::external_body]
fn rand_i64_in(lo: i64, hi: i64) -> (r: i64)
    requires
        lo < hi,
    ensures
        lo <= r < hi,
{
    rand::Rng::gen_range(&mut rand::thread_rng(), lo..hi)
}

/// The symbol the price generator walks at a given slot.
pub open spec fn spec_price_symbol(i: int) -> Seq<char> {
    if i == 0 {
        "BTC/USD"@
    } else if i == 1 {
        "ETH/USD"@
    } else if i == 2 {
        "SOL/USD"@
    } else if i == 3 {
        "AAPL"@
    } else {
        "TSLA"@
    }
}

/// The symbol at a slot, as an owned string.
pub fn price_symbol(i: usize) -> (r: String)
    requires
        i < PRICE_SYMBOL_COUNT,
    ensures
        r@ == spec_price_symbol(i as int),
        wire_symbol(r@),
{
    proof {
        reveal_strlit("BTC/USD");
        reveal_strlit("ETH/USD");
        reveal_strlit("SOL/USD");
        reveal_strlit("AAPL");
        reveal_strlit("TSLA");
    }
    let r = if i == 0 {
        String::from_str("BTC/USD")
    } else if i == 1 {
        String::from_str("ETH/USD")
    } else if i == 2 {
        String::from_str("SOL/USD")
    } else if i == 3 {
        String::from_str("AAPL")
    } else {
        String::from_str("TSLA")
    };
    r
}

/// One step of the bounded random walk: scale the price by
/// `1 + d/1000000`, rounding down, then clamp into `[1, PRICE_CENTI_MAX]`
/// so a price can neither die out nor overflow.
pub open spec fn spec_price_step(p: int, d: int) -> int {
    let scaled = (p * (1000000 + d)) / 1000000;
    if scaled < 1 {
        1
    } else if scaled > PRICE_CENTI_MAX as int {
        PRICE_CENTI_MAX as int
    } else {
        scaled
    }
}

/// The walk stays positive and moves by at most the perturbation bound
/// (with one cent of rounding slack), whatever was drawn.
pub proof fn lemma_price_step_within_bound(p: int, d: int)
    requires
        1 <= p <= PRICE_CENTI_MAX as int,
        -PERTURB_PPM as int <= d <= PERTURB_PPM as int,
    ensures
        1 <= spec_price_step(p, d) <= PRICE_CENTI_MAX as int,
        spec_price_step(p, d) * 1000000 <= p * 1002000,
        spec_price_step(p, d) * 1000000 > p * 998000 - 1000000,
{
    let num = p * (1000000 + d);
    let scaled = num / 1000000;
    assert(p * 998000 <= num <= p * 1002000) by (nonlinear_arith)
        requires
            1 <= p,
            -2000 <= d <= 2000,
            num == p * (1000000 + d),
    ;
    assert(scaled * 1000000 <= num && num < scaled * 1000000 + 1000000) by (nonlinear_arith)
        requires
            num >= 0,
            scaled == num / 1000000,
    ;
    assert(PRICE_CENTI_MAX as int * 998000 > 2000000);
    if scaled > PRICE_CENTI_MAX as int {
        assert(p * 998000 <= PRICE_CENTI_MAX as int * 998000) by (nonlinear_arith)
            requires
                p <= PRICE_CENTI_MAX as int,
        ;
    }
}

/// Take one walk step in executable code.
fn price_step(p: u64, d: i64) -> (r: u64)
    requires
        1 <= p <= PRICE_CENTI_MAX,
        -PERTURB_PPM <= d <= PERTURB_PPM,
    ensures
        r as int == spec_price_step(p as int, d as int),
        1 <= r <= PRICE_CENTI_MAX,
{
    proof {
        lemma_price_step_within_bound(p as int, d as int);
        assert(p as int * (1000000 + d as int) <= PRICE_CENTI_MAX as int * 1002000)
            by (nonlinear_arith)
            requires
                1 <= p as int <= PRICE_CENTI_MAX as int,
                -2000 <= d as int <= 2000,
        ;
        assert(p as int * (1000000 + d as int) >= 0) by (nonlinear_arith)
            requires
                1 <= p as int,
                -2000 <= d as int <= 2000,
        ;
    }
    let factor: u64 = (1000000i64 + d) as u64;
    let num: u64 = p * factor;
    let scaled: u64 = num / 1000000;
    if scaled < 1 {
        1
    } else if scaled > PRICE_CENTI_MAX {
        PRICE_CENTI_MAX
    } else {
        scaled
    }
}

/// The price generator: one running price per symbol; every cycle applies a
/// bounded multiplicative perturbation to each and emits one tick per
/// symbol.
pub struct PriceGen {
    prices: Vec<u64>,
}

/// One slot of a price cycle with its draws spelled out: `d` and `v` are
/// the perturbation and volume that were drawn, `ev` the emitted event, and
/// `frame` its wire text.
pub open spec fn price_cycle_entry(
    d: i64,
    v: u64,
    ev: Event,
    prev: u64,
    cur: u64,
    sym: Seq<char>,
    ts: i64,
    frame: Seq<char>,
) -> bool {
    &&& -PERTURB_PPM <= d <= PERTURB_PPM
    &&& 100 <= v < 10000
    &&& cur as int == spec_price_step(prev as int, d as int)
    &&& (ev matches Event::Price { symbol, price_centi, volume, ts_micros } && symbol@ == sym
        && price_centi == cur && volume == v && ts_micros == ts)
    &&& frame == frame_chars(ev)
}

/// Some admissible draw explains this slot of a price cycle.
pub open spec fn price_cycle_ok(prev: u64, cur: u64, sym: Seq<char>, ts: i64, frame: Seq<char>) -> bool {
    exists|d: i64, v: u64, ev: Event| #[trigger] price_cycle_entry(d, v, ev, prev, cur, sym, ts, frame)
}

/// Every price a cycle emits is positive and within the perturbation bound
/// of the previous price for the same symbol, one cent of rounding aside:
/// the statement of `lemma_price_step_within_bound`, lifted to whatever
/// draw explains the slot.
pub proof fn lemma_price_cycle_within_bound(
    prev: u64,
    cur: u64,
    sym: Seq<char>,
    ts: i64,
    frame: Seq<char>,
)
    requires
        price_cycle_ok(prev, cur, sym, ts, frame),
        1 <= prev <= PRICE_CENTI_MAX,
    ensures
        1 <= cur <= PRICE_CENTI_MAX,
        cur as int * 1000000 <= prev as int * 1002000,
        cur as int * 1000000 > prev as int * 998000 - 1000000,
{
    let (d, v, ev) = choose|d: i64, v: u64, ev: Event|
        price_cycle_entry(d, v, ev, prev, cur, sym, ts, frame);
    lemma_price_step_within_bound(prev as int, d as int);
}

impl PriceGen {
    /// The running prices, in hundredths, one per symbol slot.
    pub closed spec fn spec_prices(&self) -> Seq<u64> {
        self.prices@
    }

    /// Five symbols, each priced inside the walk's range.
    pub open spec fn wf(&self) -> bool {
        &&& self.spec_prices().len() == PRICE_SYMBOL_COUNT
        &&& forall|i: int|
            0 <= i < PRICE_SYMBOL_COUNT ==> 1 <= #[trigger] self.spec_prices()[i]
                <= PRICE_CENTI_MAX
    }

    /// A fresh generator at the fixed starting prices.
    pub fn new() -> (g: PriceGen)
        ensures
            g.wf(),
            g.spec_prices() =~= seq![4500000u64, 250000u64, 12000u64, 17500u64, 25000u64],
    {
        PriceGen { prices: vec![4500000u64, 250000u64, 12000u64, 17500u64, 25000u64] }
    }

    /// Apply one drawn perturbation to one symbol and build its tick.
    pub fn step_symbol_with(&mut self, i: usize, d: i64, volume: u64, ts: i64) -> (ev: Event)
        requires
            old(self).wf(),
            i < PRICE_SYMBOL_COUNT,
            -PERTURB_PPM <= d <= PERTURB_PPM,
        ensures
            final(self).wf(),
            final(self).spec_prices() == old(self).spec_prices().update(
                i as int,
                final(self).spec_prices()[i as int],
            ),
            final(self).spec_prices()[i as int] as int == spec_price_step(
                old(self).spec_prices()[i as int] as int,
                d as int,
            ),
            ev matches Event::Price { symbol, price_centi, volume: v, ts_micros } && symbol@
                == spec_price_symbol(i as int) && price_centi == final(self).spec_prices()[i as int]
                && v == volume && ts_micros == ts,
            ev.wf(),
    {
        let p = self.prices[i];
        let np = price_step(p, d);
        self.prices[i] = np;
        let sym = price_symbol(i);
        Event::Price { symbol: sym, price_centi: np, volume, ts_micros: ts }
    }

    /// Run one full cycle: walk every symbol once and hand back the five
    /// serialized frames, in symbol order.  Every slot is explained by some
    /// admissible draw, so each new price stays positive and within the
    /// perturbation bound of the old one.
    pub fn cycle(&mut self, ts: i64) -> (frames: Vec<String>)
        requires
            old(self).wf(),
        ensures
            final(self).wf(),
            frames@.len() == PRICE_SYMBOL_COUNT,
            forall|i: int|
                0 <= i < PRICE_SYMBOL_COUNT ==> #[trigger] price_cycle_ok(
                    old(self).spec_prices()[i],
                    final(self).spec_prices()[i],
                    spec_price_symbol(i),
                    ts,
                    frames@[i]@,
                ),
    {
        let mut frames: Vec<String> = Vec::new();
        let mut i: usize = 0;
        while i < PRICE_SYMBOL_COUNT
            invariant
                0 <= i <= PRICE_SYMBOL_COUNT,
                self.wf(),
                frames@.len() == i,
                forall|m: int|
                    i <= m < PRICE_SYMBOL_COUNT ==> #[trigger] self.spec_prices()[m] == old(
                        self,
                    ).spec_prices()[m],
                forall|m: int|
                    0 <= m < i ==> #[trigger] price_cycle_ok(
                        old(self).spec_prices()[m],
                        self.spec_prices()[m],
                        spec_price_symbol(m),
                        ts,
                        frames@[m]@,
                    ),
            decreases PRICE_SYMBOL_COUNT - i,
        {
            let d = rand_i64_in(-PERTURB_PPM, PERTURB_PPM + 1);
            let v = rand_u64_in(100, 10000);
            let ghost prev = self.spec_prices()[i as int];
            let ev = self.step_symbol_with(i, d, v, ts);
            let frame = serialize_event(&ev);
            proof {
                assert(price_cycle_entry(
                    d,
                    v,
                    ev,
                    prev,
                    self.spec_prices()[i as int],
                    spec_price_symbol(i as int),
                    ts,
                    frame@,
                ));
            }
            frames.push(frame);
            i = i + 1;
        }
        frames
    }
}

/// How many symbols get book snapshots.
pub const BOOK_SYMBOL_COUNT: usize = 2;

/// The symbol a book snapshot covers at a given slot.
pub open spec fn spec_book_symbol(i: int) -> Seq<char> {
    if i == 0 {
        "BTC/USD"@
    } else {
        "ETH/USD"@
    }
}

/// The fixed reference mid-price of a book slot, in hundredths.
pub open spec fn spec_book_mid(i: int) -> int {
    if i == 0 {
        4500000
    } else {
        250000
    }
}

/// A synthetic level price: the mid shifted one basis point per level,
/// downward on the bid side and upward on the ask side, rounding down.
pub open spec fn spec_book_price(mid: int, lvl: int, ask: bool) -> int {
    if ask {
        (mid * (10000 + lvl)) / 10000
    } else {
        (mid * (10000 - lvl)) / 10000
    }
}

/// Across the five synthetic levels, bid prices never increase, ask prices
/// never decrease, and no bid exceeds the lowest ask.
pub proof fn lemma_book_depth_monotone(mid: int, i: int, j: int)
    requires
        1 <= mid,
        0 <= i <= j < 5,
    ensures
        spec_book_price(mid, j, false) <= spec_book_price(mid, i, false),
        spec_book_price(mid, i, true) <= spec_book_price(mid, j, true),
        spec_book_price(mid, i, false) <= spec_book_price(mid, 0, true),
{
    assert(mid * (10000 - j) <= mid * (10000 - i) && mid * (10000 + i) <= mid * (10000 + j) && mid
        * (10000 - i) <= mid * 10000 && (mid * 10000) / 10000 == mid) by (nonlinear_arith)
        requires
            1 <= mid,
            0 <= i <= j < 5,
    ;
    lemma_div_is_ordered(mid * (10000 - j), mid * (10000 - i), 10000);
    lemma_div_is_ordered(mid * (10000 + i), mid * (10000 + j), 10000);
    lemma_div_is_ordered(mid * (10000 - i), mid * 10000, 10000);
}

/// The symbol of a book slot, as an owned string.
pub fn book_symbol(i: usize) -> (r: String)
    requires
        i < BOOK_SYMBOL_COUNT,
    ensures
        r@ == spec_book_symbol(i as int),
        wire_symbol(r@),
{
    proof {
        reveal_strlit("BTC/USD");
        reveal_strlit("ETH/USD");
    }
    if i == 0 {
        String::from_str("BTC/USD")
    } else {
        String::from_str("ETH/USD")
    }
}

/// Build one side of a synthetic book from the drawn sizes.
fn book_side(mid: u64, ask: bool, sizes: &Vec<u64>) -> (levels: Vec<Level>)
    requires
        1 <= mid <= PRICE_CENTI_MAX,
        sizes@.len() == 5,
    ensures
        levels@.len() == 5,
        forall|k: int|
            0 <= k < 5 ==> (#[trigger] levels@[k]).price_centi as int == spec_book_price(
                mid as int,
                k,
                ask,
            ) && levels@[k].size_centi == sizes@[k],
{
    let mut levels: Vec<Level> = Vec::new();
    let mut k: usize = 0;
    while k < 5
        invariant
            0 <= k <= 5,
            1 <= mid <= PRICE_CENTI_MAX,
            sizes@.len() == 5,
            levels@.len() == k,
            forall|m: int|
                0 <= m < k ==> (#[trigger] levels@[m]).price_centi as int == spec_book_price(
                    mid as int,
                    m,
                    ask,
                ) && levels@[m].size_centi == sizes@[m],
        decreases 5 - k,
    {
        let factor: u64 = if ask {
            10000 + k as u64
        } else {
            10000 - k as u64
        };
        proof {
            assert(mid as int * factor as int <= PRICE_CENTI_MAX as int * 10005)
                by (nonlinear_arith)
                requires
                    1 <= mid as int <= PRICE_CENTI_MAX as int,
                    0 <= factor as int <= 10005,
            ;
        }
        let num: u64 = mid * factor;
        let price: u64 = num / 10000;
        levels.push(Level { price_centi: price, size_centi: sizes[k] });
        k = k + 1;
    }
    levels
}

/// Build one book snapshot from the drawn level sizes.
pub fn book_event_with(i: usize, bid_sizes: &Vec<u64>, ask_sizes: &Vec<u64>, ts: i64) -> (ev: Event)
    requires
        i < BOOK_SYMBOL_COUNT,
        bid_sizes@.len() == 5,
        ask_sizes@.len() == 5,
    ensures
        ev matches Event::BookDepth { symbol, bids, asks, ts_micros } && symbol@
            == spec_book_symbol(i as int) && bids@.len() == 5 && asks@.len() == 5 && (forall|
            k: int,
        |
            0 <= k < 5 ==> (#[trigger] bids@[k]).price_centi as int == spec_book_price(
                spec_book_mid(i as int),
                k,
                false,
            ) && bids@[k].size_centi == bid_sizes@[k]) && (forall|k: int|
            0 <= k < 5 ==> (#[trigger] asks@[k]).price_centi as int == spec_book_price(
                spec_book_mid(i as int),
                k,
                true,
            ) && asks@[k].size_centi == ask_sizes@[k]) && ts_micros == ts,
        ev.wf(),
{
    let mid: u64 = if i == 0 {
        4500000
    } else {
        250000
    };
    let bids = book_side(mid, false, bid_sizes);
    let asks = book_side(mid, true, ask_sizes);
    let sym = book_symbol(i);
    Event::BookDepth { symbol: sym, bids, asks, ts_micros: ts }
}

/// One slot of a book cycle: the snapshot's levels sit at the synthetic
/// prices with drawn sizes, and `frame` is its wire text.
pub open spec fn book_cycle_entry(ev: Event, i: int, ts: i64, frame: Seq<char>) -> bool {
    &&& (ev matches Event::BookDepth { symbol, bids, asks, ts_micros } && symbol@
        == spec_book_symbol(i) && bids@.len() == 5 && asks@.len() == 5 && (forall|k: int|
        0 <= k < 5 ==> (#[trigger] bids@[k]).price_centi as int == spec_book_price(
            spec_book_mid(i),
            k,
            false,
        ) && 10 <= bids@[k].size_centi < 1000) && (forall|k: int|
        0 <= k < 5 ==> (#[trigger] asks@[k]).price_centi as int == spec_book_price(
            spec_book_mid(i),
            k,
            true,
        ) && 10 <= asks@[k].size_centi < 1000) && ts_micros == ts)
    &&& frame == frame_chars(ev)
}

/// Some admissible draw of sizes explains this book frame.
pub open spec fn book_cycle_ok(i: int, ts: i64, frame: Seq<char>) -> bool {
    exists|ev: Event| #[trigger] book_cycle_entry(ev, i, ts, frame)
}

/// Draw five level sizes in tenths-to-tens of a unit, in hundredths.
fn draw_sizes() -> (sizes: Vec<u64>)
    ensures
        sizes@.len() == 5,
        forall|m: int| 0 <= m < 5 ==> 10 <= #[trigger] sizes@[m] < 1000,
{
    let mut sizes: Vec<u64> = Vec::new();
    let mut k: usize = 0;
    while k < 5
        invariant
            0 <= k <= 5,
            sizes@.len() == k,
            forall|m: int| 0 <= m < k ==> 10 <= #[trigger] sizes@[m] < 1000,
        decreases 5 - k,
    {
        sizes.push(rand_u64_in(10, 1000));
        k = k + 1;
    }
    sizes
}

/// Run one book cycle: one snapshot per covered symbol, serialized, in
/// slot order.
pub fn book_cycle(ts: i64) -> (frames: Vec<String>)
    ensures
        frames@.len() == BOOK_SYMBOL_COUNT,
        forall|i: int| 0 <= i < BOOK_SYMBOL_COUNT ==> #[trigger] book_cycle_ok(i, ts, frames@[i]@),
{
    let mut frames: Vec<String> = Vec::new();
    let mut i: usize = 0;
    while i < BOOK_SYMBOL_COUNT
        invariant
            0 <= i <= BOOK_SYMBOL_COUNT,
            frames@.len() == i,
            forall|m: int| 0 <= m < i ==> #[trigger] book_cycle_ok(m, ts, frames@[m]@),
        decreases BOOK_SYMBOL_COUNT - i,
    {
        let bid_sizes = draw_sizes();
        let ask_sizes = draw_sizes();
        let ev = book_event_with(i, &bid_sizes, &ask_sizes, ts);
        let frame = serialize_event(&ev);
        proof {
            assert(book_cycle_entry(ev, i as int, ts, frame@));
        }
        frames.push(frame);
        i = i + 1;
    }
    frames
}

/// How many symbols the trade generator draws from.
pub const TRADE_SYMBOL_COUNT: usize = 3;

/// The symbol of a trade slot.
pub open spec fn spec_trade_symbol(i: int) -> Seq<char> {
    if i == 0 {
        "BTC/USD"@
    } else if i == 1 {
        "ETH/USD"@
    } else {
        "SOL/USD"@
    }
}

/// The fixed reference price a trade perturbs, in hundredths.
pub open spec fn spec_trade_ref_centi(i: int) -> int {
    if i == 0 {
        4500000
    } else if i == 1 {
        250000
    } else {
        12000
    }
}

/// How far a trade may stray from its reference price, in hundredths.
pub open spec fn spec_trade_delta_bound(i: int) -> int {
    if i == 0 {
        10000
    } else if i == 1 {
        1000
    } else {
        100
    }
}

/// The symbol of a trade slot, as an owned string.
pub fn trade_symbol(i: usize) -> (r: String)
    requires
        i < TRADE_SYMBOL_COUNT,
    ensures
        r@ == spec_trade_symbol(i as int),
        wire_symbol(r@),
{
    proof {
        reveal_strlit("BTC/USD");
        reveal_strlit("ETH/USD");
        reveal_strlit("SOL/USD");
    }
    if i == 0 {
        String::from_str("BTC/USD")
    } else if i == 1 {
        String::from_str("ETH/USD")
    } else {
        String::from_str("SOL/USD")
    }
}

/// Build one trade from the drawn slot, price offset, size and side.  The
/// size counts hundred-millionths, is always positive, and the side is
/// always one of the two sides, by construction.
pub fn trade_event_with(i: usize, delta: i64, size_e8: u64, buy: bool, ts: i64) -> (ev: Event)
    requires
        i < TRADE_SYMBOL_COUNT,
        -spec_trade_delta_bound(i as int) <= delta <= spec_trade_delta_bound(i as int),
        1 <= size_e8,
    ensures
        ev matches Event::Trade { symbol, price_centi, size_e8: z, side, ts_micros } && symbol@
            == spec_trade_symbol(i as int) && price_centi as int == spec_trade_ref_centi(i as int)
            + delta && z == size_e8 && z >= 1 && side == (if buy {
            Side::Buy
        } else {
            Side::Sell
        }) && ts_micros == ts,
        ev.wf(),
{
    let reference: i64 = if i == 0 {
        4500000
    } else if i == 1 {
        250000
    } else {
        12000
    };
    let price: u64 = (reference + delta) as u64;
    let sym = trade_symbol(i);
    Event::Trade {
        symbol: sym,
        price_centi: price,
        size_e8,
        side: if buy {
            Side::Buy
        } else {
            Side::Sell
        },
        ts_micros: ts,
    }
}

/// One trade cycle's outcome, with its draws spelled out.
pub open spec fn trade_cycle_entry(
    ev: Event,
    i: int,
    delta: i64,
    z: u64,
    buy: bool,
    ts: i64,
    frame: Seq<char>,
) -> bool {
    &&& 0 <= i < TRADE_SYMBOL_COUNT
    &&& -spec_trade_delta_bound(i) <= delta <= spec_trade_delta_bound(i)
    &&& 1000000 <= z < 500000000
    &&& (ev matches Event::Trade { symbol, price_centi, size_e8, side, ts_micros } && symbol@
        == spec_trade_symbol(i) && price_centi as int == spec_trade_ref_centi(i) + delta
        && size_e8 == z && side == (if buy {
        Side::Buy
    } else {
        Side::Sell
    }) && ts_micros == ts)
    &&& frame == frame_chars(ev)
}

/// Some admissible draw explains this trade frame.
pub open spec fn trade_cycle_ok(ts: i64, frame: Seq<char>) -> bool {
    exists|ev: Event, i: int, delta: i64, z: u64, buy: bool|
        #[trigger] trade_cycle_entry(ev, i, delta, z, buy, ts, frame)
}

/// Run one trade cycle: pick a symbol uniformly, perturb its reference
/// price, and emit one trade with a positive size and a random side.
pub fn trade_cycle(ts: i64) -> (frame: String)
    ensures
        trade_cycle_ok(ts, frame@),
{
    let i = rand_u64_in(0, 3) as usize;
    let bound: i64 = if i == 0 {
        10000
    } else if i == 1 {
        1000
    } else {
        100
    };
    let delta = rand_i64_in(-bound, bound + 1);
    let z = rand_u64_in(1000000, 500000000);
    let buy = rand_u64_in(0, 2) == 1;
    let ev = trade_event_with(i, delta, z, buy, ts);
    let frame = serialize_event(&ev);
    proof {
        assert(trade_cycle_entry(ev, i as int, delta, z, buy, ts, frame@));
    }
    frame
}

/// The system-metric generator: a counter that only ever grows, simulating
/// cumulative message throughput.
pub struct MetricGen {
    count: u64,
}

/// One metric cycle's outcome, with its draws spelled out.
pub open spec fn metric_cycle_entry(
    ev: Event,
    d: u64,
    cpu: u64,
    mem: u64,
    prev: u64,
    cur: u64,
    ts: i64,
    frame: Seq<char>,
) -> bool {
    &&& 50 <= d < 200
    &&& 1000 <= cpu < 8000
    &&& 500 <= mem < 2000
    &&& cur == (if prev + d > u64::MAX {
        u64::MAX
    } else {
        (prev + d) as u64
    })
    &&& (ev matches Event::SystemMetric { cpu_centi_pct, mem_mb, msg_rate, ts_micros }
        && cpu_centi_pct == cpu && mem_mb == mem && msg_rate == cur && ts_micros == ts)
    &&& frame == frame_chars(ev)
}

/// Some admissible draw explains this metric frame.
pub open spec fn metric_cycle_ok(prev: u64, cur: u64, ts: i64, frame: Seq<char>) -> bool {
    exists|ev: Event, d: u64, cpu: u64, mem: u64|
        #[trigger] metric_cycle_entry(ev, d, cpu, mem, prev, cur, ts, frame)
}

impl MetricGen {
    /// The cumulative message count reported so far.
    pub closed spec fn spec_count(&self) -> u64 {
        self.count
    }

    /// A fresh generator with the counter at zero.
    pub fn new() -> (g: MetricGen)
        ensures
            g.spec_count() == 0,
    {
        MetricGen { count: 0 }
    }

    /// Advance the counter by a drawn amount (saturating at the top) and
    /// build the metric event.
    pub fn step_with(&mut self, d: u64, cpu_centi: u64, mem_mb: u64, ts: i64) -> (ev: Event)
        requires
            50 <= d < 200,
        ensures
            final(self).spec_count() == (if old(self).spec_count() + d > u64::MAX {
                u64::MAX
            } else {
                (old(self).spec_count() + d) as u64
            }),
            final(self).spec_count() >= old(self).spec_count(),
            ev matches Event::SystemMetric { cpu_centi_pct, mem_mb: m, msg_rate, ts_micros }
                && cpu_centi_pct == cpu_centi && m == mem_mb
                && msg_rate == final(self).spec_count() && ts_micros == ts,
            ev.wf(),
    {
        self.count = if self.count > u64::MAX - d {
            u64::MAX
        } else {
            self.count + d
        };
        Event::SystemMetric {
            cpu_centi_pct: cpu_centi,
            mem_mb,
            msg_rate: self.count,
            ts_micros: ts,
        }
    }

    /// Run one metric cycle: grow the counter, draw host figures, and hand
    /// back the serialized frame.  The counter never shrinks.
    pub fn cycle(&mut self, ts: i64) -> (frame: String)
        ensures
            final(self).spec_count() >= old(self).spec_count(),
            metric_cycle_ok(old(self).spec_count(), final(self).spec_count(), ts, frame@),
    {
        let d = rand_u64_in(50, 200);
        let cpu = rand_u64_in(1000, 8000);
        let mem = rand_u64_in(500, 2000);
        let ghost prev = self.spec_count();
        let ev = self.step_with(d, cpu, mem, ts);
        let frame = serialize_event(&ev);
        proof {
            assert(metric_cycle_entry(ev, d, cpu, mem, prev, self.spec_count(), ts, frame@));
        }
        frame
    }
}

/// The inter-cycle interval of the price stream: the frequency control's
/// value, floored at 10 ms.
pub fn price_interval_ms(freq: u64) -> (r: u64)
    ensures
        r == if freq > 10 {
            freq
        } else {
            10u64
        },
{
    if freq > 10 {
        freq
    } else {
        10
    }
}

/// The inter-cycle interval of the book stream: twice the control's value,
/// floored at 50 ms.
pub fn book_interval_ms(freq: u64) -> (r: u64)
    requires
        freq <= FREQ_MAX_MS,
    ensures
        r as int == if 2 * freq as int > 50 {
            2 * freq as int
        } else {
            50
        },
{
    let doubled = 2 * freq;
    if doubled > 50 {
        doubled
    } else {
        50
    }
}

/// The inter-cycle interval of the trade stream: three times the control's
/// value, floored at 50 ms.
pub fn trade_interval_ms(freq: u64) -> (r: u64)
    requires
        freq <= FREQ_MAX_MS,
    ensures
        r as int == if 3 * freq as int > 50 {
            3 * freq as int
        } else {
            50
        },
{
    let tripled = 3 * freq;
    if tripled > 50 {
        tripled
    } else {
        50
    }
}

/// The fixed cadence of the system-metric stream, not tied to the
/// frequency control.
pub const METRIC_INTERVAL_MS: u64 = 1000;

} // verus!
