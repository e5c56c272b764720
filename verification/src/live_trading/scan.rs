//! The scan of the market: which coins are worth opening, which positions are to
//! be closed, and what may be executed in which order.
use super::open::{
    or_zero, positive, positive_of, quantity_for, value_or_zero, OpenCandidate,
};
use super::reasons::{coins_of, full_text};
use super::{place_of, LiveTradingEngine, OpenPosition};
use crate::clock::{millis_in, seconds_between, whole_millis, whole_seconds};
use crate::config::{
    DynamicSpreadConfig, TradingParams, MAX_BOOK_AGE_MILLIS, MAX_SPREAD_THRESHOLD,
};
use crate::fixed::{
    floor_div, lemma_quotient_fits, pct_change, pct_change_spec, MAX_AMOUNT, SCALE,
};
use crate::latency::{blank_latency, TradeLatency};
use crate::opportunity_logger::OpportunityRecord;
use crate::price_store::{
    age_of, lists_entries, CoinPrices, Exchange, ExchangeStatus, PriceStore,
};
use crate::rejection::RejectionReason;
use crate::stats::{
    compute_effective_spread, config_fits, depth, effective_spread, fresh_state,
    walk_from, OrderBookLevel, RollingStats, StatsState, VwapError,
};
use crate::text::{nat_text, push_nat};
use vstd::hash_map::StringHashMap;
use vstd::prelude::*;

verus! {

/// A book of one level.
pub open spec fn one_level(price: u64, qty: u64) -> Seq<OrderBookLevel> {
    seq![OrderBookLevel { price, qty }]
}

/// What buying at one price and selling at another is based on: the best ask of
/// one book and the best bid of the other.
#[derive(Debug, Clone, Copy, PartialEq, Eq, Structural)]
pub struct Crossing {
    pub buy_price: u64,
    pub buy_qty: u64,
    pub sell_price: u64,
    pub sell_qty: u64,
}

/// The effective spread of a trade of `size` USDT across two books.
pub open spec fn crossing_spread(
    x: Crossing,
    size: int,
    config: DynamicSpreadConfig,
) -> Result<int, VwapError> {
    effective_spread(
        one_level(x.buy_price, x.buy_qty),
        one_level(x.sell_price, x.sell_qty),
        quantity_for(size, x.buy_price as int),
        config.max_depth_levels as int,
        config.max_slippage_pct as int,
    )
}

/// One level that offers less than the target does not fill it.
proof fn lemma_one_level_short(
    price: u64,
    qty: u64,
    target: int,
    max_depth_levels: int,
    max_slippage_pct: int,
    is_buy: bool,
)
    requires
        qty < target,
    ensures
        walk_from(one_level(price, qty), 0, target, max_depth_levels, max_slippage_pct, is_buy)
            is Err,
{
    reveal_with_fuel(walk_from, 3);
    reveal_with_fuel(depth, 3);
}

fn measure_crossing(x: &Crossing, size: u64, config: &DynamicSpreadConfig) -> (r: Option<i128>)
    requires
        x.buy_price > 0,
        size <= MAX_AMOUNT,
    ensures
        match r {
            Some(s) => crossing_spread(*x, size as int, *config) == Ok::<int, VwapError>(s as int)
                && -crate::fixed::PCT_SCALE <= s <= u64::MAX * crate::fixed::PCT_SCALE,
            None => crossing_spread(*x, size as int, *config) is Err,
        },
{
    let target: u128 = size as u128 * 100_000_000 / x.buy_price as u128;
    if target > u64::MAX as u128 {
        proof {
            lemma_one_level_short(
                x.buy_price,
                x.buy_qty,
                target as int,
                config.max_depth_levels as int,
                config.max_slippage_pct as int,
                true,
            );
        }
        return None;
    }
    let buy_levels = [OrderBookLevel { price: x.buy_price, qty: x.buy_qty }];
    let sell_levels = [OrderBookLevel { price: x.sell_price, qty: x.sell_qty }];
    assert(buy_levels@ =~= one_level(x.buy_price, x.buy_qty));
    assert(sell_levels@ =~= one_level(x.sell_price, x.sell_qty));
    match compute_effective_spread(
        &buy_levels,
        &sell_levels,
        target as u64,
        config.max_depth_levels,
        config.max_slippage_pct,
    ) {
        Ok(s) => Some(s),
        Err(_) => None,
    }
}

/// What became of an opportunity in one direction.
#[verifier::ext_equal]
pub struct Evaluated {
    /// The statistics afterwards.
    pub state: StatsState,
    /// The effective spread, zero where it cannot be filled.
    pub spread: int,
    /// Why it is not taken, nothing where it is.
    pub reject: Option<RejectionReason>,
}

/// The evaluation of an opportunity in one direction. Where it can be filled, the
/// statistics see its spread; it is taken where the spread is believable and an entry
/// signal. Statistics that cannot count another sample see nothing more, and nothing is
/// taken.
pub open spec fn evaluated(state: StatsState, x: Crossing, size: int, now: int) -> Evaluated {
    match crossing_spread(x, size, state.config) {
        Err(_) => Evaluated {
            state,
            spread: 0,
            reject: Some(RejectionReason::INSUFFICIENT_LIQUIDITY),
        },
        Ok(s) => if state.samples >= usize::MAX {
            Evaluated { state, spread: s, reject: Some(RejectionReason::RISK_LIMIT) }
        } else {
            let seen = state.updated(s, now);
            if s > MAX_SPREAD_THRESHOLD {
                Evaluated { state: seen, spread: s, reject: Some(RejectionReason::RISK_LIMIT) }
            } else {
                match seen.entry_signal(s, now) {
                    Err(e) => Evaluated { state: seen, spread: s, reject: Some(e) },
                    Ok(()) => Evaluated {
                        state: StatsState { crossing_ts: now, ..seen },
                        spread: s,
                        reject: None,
                    },
                }
            }
        },
    }
}

/// An opportunity is only taken where it can be filled, its spread is believable
/// and the statistics that have seen it call for an entry.
pub proof fn law_taken_opportunity(state: StatsState, x: Crossing, size: int, now: int)
    requires
        evaluated(state, x, size, now).reject is None,
    ensures
        ({
            let s = evaluated(state, x, size, now).spread;
            &&& crossing_spread(x, size, state.config) == Ok::<int, VwapError>(s)
            &&& s <= MAX_SPREAD_THRESHOLD
            &&& state.updated(s, now).entry_signal(s, now) is Ok
        }),
{
}

/// What became of an opportunity in one direction.
#[derive(Debug, Clone, Copy, PartialEq, Eq, Structural)]
pub struct Evaluation {
    pub spread: i128,
    pub reject: Option<RejectionReason>,
}

/// Evaluates an opportunity in one direction.
pub fn evaluate_crossing(stats: &mut RollingStats, x: &Crossing, size: u64, now_ms: u64) -> (e:
    Evaluation)
    requires
        old(stats).wf(),
        x.buy_price > 0,
        size <= MAX_AMOUNT,
    ensures
        final(stats).wf(),
        ({
            let ev = evaluated(old(stats)@, *x, size as int, now_ms as int);
            &&& final(stats)@ == ev.state
            &&& e.spread == ev.spread
            &&& e.reject == ev.reject
        }),
        -crate::fixed::PCT_SCALE <= e.spread <= u64::MAX * crate::fixed::PCT_SCALE,
{
    let spread: i128 = match measure_crossing(x, size, &stats.config) {
        Some(s) => s,
        None => {
            return Evaluation {
                spread: 0,
                reject: Some(RejectionReason::INSUFFICIENT_LIQUIDITY),
            };
        },
    };
    if stats.sample_count >= usize::MAX {
        return Evaluation { spread, reject: Some(RejectionReason::RISK_LIMIT) };
    }
    stats.update(spread, now_ms);
    if spread > MAX_SPREAD_THRESHOLD as i128 {
        return Evaluation { spread, reject: Some(RejectionReason::RISK_LIMIT) };
    }
    match stats.evaluate_entry(spread, now_ms) {
        Err(e) => Evaluation { spread, reject: Some(e) },
        Ok(()) => Evaluation { spread, reject: None },
    }
}

/// A threshold, or zero where trading is not permitted.
pub open spec fn level_or_zero(permitted: bool, level: int) -> int {
    if permitted {
        level
    } else {
        0
    }
}

/// How many robust deviations a spread lies above the median, in units, rounded
/// down.
pub open spec fn z_score_of(state: StatsState, spread: int) -> int {
    if state.volatility() > 0 {
        ((spread - state.median) * SCALE) / state.volatility()
    } else {
        0
    }
}

/// Whether a record tells of an evaluated opportunity. `raw_bid` is the best bid
/// of the exchange that is bought from.
pub open spec fn tells_evaluated(
    r: OpportunityRecord,
    coin: Seq<char>,
    direction: Seq<char>,
    raw_bid: u64,
    x: Crossing,
    ev: Evaluated,
    now: int,
) -> bool {
    let permitted = ev.state.permit(millis_in(now)) is Ok;
    &&& r.timestamp_ns == now
    &&& r.symbol@ == coin
    &&& r.direction@ == direction
    &&& r.raw_bid == raw_bid
    &&& r.raw_ask == x.buy_price
    &&& r.effective_buy_price == x.buy_price
    &&& r.effective_sell_price == x.sell_price
    &&& r.gross_spread_pct == pct_change_spec(x.buy_price as int, x.sell_price as int)
    &&& r.effective_spread_pct == ev.spread
    &&& r.baseline_spread_pct == ev.state.median
    &&& r.spread_volatility_pct == ev.state.volatility()
    &&& r.dynamic_entry_threshold_pct == level_or_zero(permitted, ev.state.entry_level())
    &&& r.dynamic_exit_threshold_pct == level_or_zero(permitted, ev.state.exit_level())
    &&& r.z_score == z_score_of(ev.state, ev.spread)
    &&& r.spread_velocity == ev.state.velocity
    &&& r.expected_slippage_pct == 0
    &&& r.buy_fee_pct == 0
    &&& r.sell_fee_pct == 0
    &&& r.net_edge_pct == ev.spread
    &&& r.signal_age_ms == 0
    &&& r.liquidity_ok == (ev.reject != Some(RejectionReason::INSUFFICIENT_LIQUIDITY))
    &&& r.data_fresh_ok
    &&& r.entry_decision == (ev.reject is None)
    &&& r.reject_reason == ev.reject
    &&& r.exit_trigger_condition is None
}

fn z_score(stats: &RollingStats, spread: i128) -> (z: i128)
    requires
        stats.wf(),
        -crate::fixed::PCT_SCALE <= spread <= u64::MAX * crate::fixed::PCT_SCALE,
    ensures
        z == z_score_of(stats@, spread as int),
{
    let volatility: i128 = stats.get_spread_volatility();
    if volatility > 0 {
        let lead: i128 = spread - stats.rolling_median;
        assert(-100_000_000_000_000_000_000_000_000_000_000_000_000 <= lead * 100_000_000
            <= 100_000_000_000_000_000_000_000_000_000_000_000_000);
        proof {
            lemma_quotient_fits(lead * SCALE, volatility as int);
        }
        floor_div(lead * 100_000_000, volatility)
    } else {
        0
    }
}

fn threshold_or_zero(t: Option<i128>) -> (v: i128)
    ensures
        v == match t {
            Some(x) => x,
            None => 0,
        },
{
    match t {
        Some(x) => x,
        None => 0,
    }
}

/// The rolling statistics of all coins in one direction.
pub struct StatsTable {
    pub config: DynamicSpreadConfig,
    pub startup_ms: u64,
    /// Where the statistics of a coin stand.
    pub index: StringHashMap<usize>,
    pub slots: Vec<RollingStats>,
}

impl StatsTable {
    /// Every coin has a place of its own, and all statistics are well-formed.
    pub open spec fn wf(&self) -> bool {
        &&& config_fits(self.config)
        &&& forall|k: Seq<char>| #[trigger]
            self.index@.contains_key(k) ==> self.index@[k] < self.slots@.len()
        &&& forall|k: Seq<char>, l: Seq<char>|
            #![trigger self.index@[k], self.index@[l]]
            self.index@.contains_key(k) && self.index@.contains_key(l) && k != l ==> self.index@[k]
                != self.index@[l]
        &&& forall|i: int| 0 <= i < self.slots@.len() ==> (#[trigger] self.slots@[i]).wf()
    }

    /// Whether there are statistics of a coin.
    pub open spec fn knows(&self, coin: Seq<char>) -> bool {
        self.index@.contains_key(coin)
    }

    /// The statistics of a coin, fresh ones where there are none yet.
    pub open spec fn state_of(&self, coin: Seq<char>) -> StatsState {
        if self.index@.contains_key(coin) {
            self.slots@[self.index@[coin] as int]@
        } else {
            fresh_state(self.config, self.startup_ms as int)
        }
    }

    /// A table without coins.
    pub fn new(config: DynamicSpreadConfig, startup_ms: u64) -> (t: StatsTable)
        requires
            config_fits(config),
        ensures
            t.wf(),
            t.config == config,
            t.startup_ms == startup_ms,
            forall|k: Seq<char>| !#[trigger] t.knows(k),
            forall|k: Seq<char>| #[trigger]
                t.state_of(k) == fresh_state(config, startup_ms as int),
    {
        StatsTable { config, startup_ms, index: StringHashMap::new(), slots: Vec::new() }
    }

    fn slot(&mut self, coin: &str) -> (i: usize)
        requires
            old(self).wf(),
        ensures
            final(self).wf(),
            final(self).config == old(self).config,
            final(self).startup_ms == old(self).startup_ms,
            final(self).index@.contains_key(coin@),
            final(self).index@[coin@] == i,
            i < final(self).slots@.len(),
            forall|k: Seq<char>| #[trigger]
                final(self).knows(k) == (old(self).knows(k) || k == coin@),
            forall|k: Seq<char>| #[trigger] final(self).state_of(k) == old(self).state_of(k),
    {
        if let Some(i) = self.index.get(coin) {
            return *i;
        }
        let i: usize = self.slots.len();
        let fresh = RollingStats::new(self.config, self.startup_ms);
        self.slots.push(fresh);
        self.index.insert(coin.to_owned(), i);
        i
    }

    /// Evaluates an opportunity on a coin, and tells of it. `raw_bid` is the best
    /// bid of the exchange that is bought from.
    pub fn observe(
        &mut self,
        coin: &str,
        direction: &str,
        raw_bid: u64,
        x: &Crossing,
        size: u64,
        now_ns: i64,
    ) -> (r: (Evaluation, OpportunityRecord))
        requires
            old(self).wf(),
            x.buy_price > 0,
            size <= MAX_AMOUNT,
            now_ns >= 0,
        ensures
            final(self).wf(),
            final(self).config == old(self).config,
            final(self).startup_ms == old(self).startup_ms,
            forall|k: Seq<char>| #[trigger]
                final(self).knows(k) == (old(self).knows(k) || k == coin@),
            forall|k: Seq<char>|
                k != coin@ ==> #[trigger] final(self).state_of(k) == old(self).state_of(k),
            ({
                let ev = evaluated(
                    old(self).state_of(coin@),
                    *x,
                    size as int,
                    millis_in(now_ns as int),
                );
                &&& final(self).state_of(coin@) == ev.state
                &&& r.0.spread == ev.spread
                &&& r.0.reject == ev.reject
                &&& tells_evaluated(r.1, coin@, direction@, raw_bid, *x, ev, now_ns as int)
            }),
    {
        let i: usize = self.slot(coin);
        let ghost before = *self;
        assert(self.slots@[i as int].wf());
        assert(self.state_of(coin@) == old(self).state_of(coin@));
        let now_ms: u64 = whole_millis(now_ns);
        let e = evaluate_crossing(&mut self.slots[i], x, size, now_ms);
        assert(self.slots@[i as int].wf());
        proof {
            assert forall|k: Seq<char>| k != coin@ implies #[trigger] self.state_of(k)
                == before.state_of(k) by {
                if self.index@.contains_key(k) {
                    assert(self.index@[k] != self.index@[coin@]);
                }
            }
            assert forall|k: Seq<char>| #[trigger] self.knows(k) == before.knows(k) by {}
        }
        let stats = &self.slots[i];
        let record = OpportunityRecord {
            timestamp_ns: now_ns,
            symbol: coin.to_owned(),
            direction: direction.to_owned(),
            raw_bid,
            raw_ask: x.buy_price,
            effective_buy_price: x.buy_price,
            effective_sell_price: x.sell_price,
            gross_spread_pct: pct_change(x.buy_price, x.sell_price),
            effective_spread_pct: e.spread,
            baseline_spread_pct: stats.rolling_median,
            spread_volatility_pct: stats.get_spread_volatility(),
            dynamic_entry_threshold_pct: threshold_or_zero(stats.get_entry_threshold(now_ms)),
            dynamic_exit_threshold_pct: threshold_or_zero(stats.get_exit_threshold(now_ms)),
            z_score: z_score(stats, e.spread),
            spread_velocity: stats.spread_velocity,
            expected_slippage_pct: 0,
            buy_fee_pct: 0,
            sell_fee_pct: 0,
            net_edge_pct: e.spread,
            signal_age_ms: 0,
            liquidity_ok: match e.reject {
                Some(RejectionReason::INSUFFICIENT_LIQUIDITY) => false,
                _ => true,
            },
            data_fresh_ok: true,
            entry_decision: e.reject.is_none(),
            reject_reason: e.reject,
            exit_trigger_condition: None,
        };
        (e, record)
    }
}

/// Best prices and quantities of both books of a coin.
#[derive(Debug, Clone, Copy, PartialEq, Eq, Structural)]
pub struct Tops {
    pub binance_ask: u64,
    pub binance_ask_qty: u64,
    pub binance_bid: u64,
    pub binance_bid_qty: u64,
    pub bybit_ask: u64,
    pub bybit_ask_qty: u64,
    pub bybit_bid: u64,
    pub bybit_bid_qty: u64,
}

/// The best prices of both books, where all four are known and not zero. A
/// quantity that is not known counts as none.
pub open spec fn tops_of(p: CoinPrices) -> Option<Tops> {
    match (
        positive(p.binance_book.best_ask),
        positive(p.binance_book.best_bid),
        positive(p.bybit_book.best_ask),
        positive(p.bybit_book.best_bid),
    ) {
        (Some(binance_ask), Some(binance_bid), Some(bybit_ask), Some(bybit_bid)) => Some(
            Tops {
                binance_ask,
                binance_ask_qty: or_zero(p.binance_book.best_ask_qty),
                binance_bid,
                binance_bid_qty: or_zero(p.binance_book.best_bid_qty),
                bybit_ask,
                bybit_ask_qty: or_zero(p.bybit_book.best_ask_qty),
                bybit_bid,
                bybit_bid_qty: or_zero(p.bybit_book.best_bid_qty),
            },
        ),
        _ => None,
    }
}

fn read_tops(p: &CoinPrices) -> (t: Option<Tops>)
    ensures
        t == tops_of(*p),
{
    match (
        positive_of(p.binance_book.best_ask),
        positive_of(p.binance_book.best_bid),
        positive_of(p.bybit_book.best_ask),
        positive_of(p.bybit_book.best_bid),
    ) {
        (Some(binance_ask), Some(binance_bid), Some(bybit_ask), Some(bybit_bid)) => Some(
            Tops {
                binance_ask,
                binance_ask_qty: value_or_zero(p.binance_book.best_ask_qty),
                binance_bid,
                binance_bid_qty: value_or_zero(p.binance_book.best_bid_qty),
                bybit_ask,
                bybit_ask_qty: value_or_zero(p.bybit_book.best_ask_qty),
                bybit_bid,
                bybit_bid_qty: value_or_zero(p.bybit_book.best_bid_qty),
            },
        ),
        _ => None,
    }
}

/// Buying on an exchange and selling on the other.
pub open spec fn entry_crossing(t: Tops, buy_on: Exchange) -> Crossing {
    match buy_on {
        Exchange::Binance => Crossing {
            buy_price: t.binance_ask,
            buy_qty: t.binance_ask_qty,
            sell_price: t.bybit_bid,
            sell_qty: t.bybit_bid_qty,
        },
        Exchange::Bybit => Crossing {
            buy_price: t.bybit_ask,
            buy_qty: t.bybit_ask_qty,
            sell_price: t.binance_bid,
            sell_qty: t.binance_bid_qty,
        },
    }
}

fn cross_entry(t: &Tops, buy_on: Exchange) -> (x: Crossing)
    ensures
        x == entry_crossing(*t, buy_on),
{
    match buy_on {
        Exchange::Binance => Crossing {
            buy_price: t.binance_ask,
            buy_qty: t.binance_ask_qty,
            sell_price: t.bybit_bid,
            sell_qty: t.bybit_bid_qty,
        },
        Exchange::Bybit => Crossing {
            buy_price: t.bybit_ask,
            buy_qty: t.bybit_ask_qty,
            sell_price: t.binance_bid,
            sell_qty: t.binance_bid_qty,
        },
    }
}

/// What remains of the spread of a position that was bought on an exchange: the
/// bid at which its long leg is sold against the ask at which its short leg is
/// bought back.
pub open spec fn exit_crossing(t: Tops, bought_on: Exchange) -> Crossing {
    match bought_on {
        Exchange::Binance => Crossing {
            buy_price: t.binance_bid,
            buy_qty: t.binance_bid_qty,
            sell_price: t.bybit_ask,
            sell_qty: t.bybit_ask_qty,
        },
        Exchange::Bybit => Crossing {
            buy_price: t.bybit_bid,
            buy_qty: t.bybit_bid_qty,
            sell_price: t.binance_ask,
            sell_qty: t.binance_ask_qty,
        },
    }
}

fn cross_exit(t: &Tops, bought_on: Exchange) -> (x: Crossing)
    ensures
        x == exit_crossing(*t, bought_on),
{
    match bought_on {
        Exchange::Binance => Crossing {
            buy_price: t.binance_bid,
            buy_qty: t.binance_bid_qty,
            sell_price: t.bybit_ask,
            sell_qty: t.bybit_ask_qty,
        },
        Exchange::Bybit => Crossing {
            buy_price: t.bybit_bid,
            buy_qty: t.bybit_bid_qty,
            sell_price: t.binance_ask,
            sell_qty: t.binance_ask_qty,
        },
    }
}

/// The other exchange.
pub open spec fn opposite(e: Exchange) -> Exchange {
    match e {
        Exchange::Binance => Exchange::Bybit,
        Exchange::Bybit => Exchange::Binance,
    }
}

/// The name of the direction that buys on an exchange.
pub open spec fn direction_name(buy_on: Exchange) -> Seq<char> {
    match buy_on {
        Exchange::Binance => "Binance->Bybit"@,
        Exchange::Bybit => "Bybit->Binance"@,
    }
}

/// The best bid of an exchange.
pub open spec fn top_bid(t: Tops, e: Exchange) -> u64 {
    match e {
        Exchange::Binance => t.binance_bid,
        Exchange::Bybit => t.bybit_bid,
    }
}

/// When the book of an exchange was updated.
pub open spec fn book_epoch(p: CoinPrices, e: Exchange) -> Option<i64> {
    match e {
        Exchange::Binance => p.binance_book_epoch_ms,
        Exchange::Bybit => p.bybit_book_epoch_ms,
    }
}

/// Whether a book is recent enough to trade on.
pub open spec fn recent(age_millis: Option<u128>) -> bool {
    age_millis is Some && age_millis->Some_0 <= MAX_BOOK_AGE_MILLIS
}

fn is_recent(age_millis: Option<u128>) -> (r: bool)
    ensures
        r == recent(age_millis),
{
    match age_millis {
        Some(age) => age <= MAX_BOOK_AGE_MILLIS,
        None => false,
    }
}

/// Whether a candidate is the one that an accepted evaluation gives.
pub open spec fn is_candidate(
    c: OpenCandidate,
    coin: Seq<char>,
    p: CoinPrices,
    t: Tops,
    buy_on: Exchange,
    ev: Evaluated,
    now_ns: i64,
) -> bool {
    let x = entry_crossing(t, buy_on);
    &&& c.coin@ == coin
    &&& c.buy_ex == buy_on
    &&& c.sell_ex == opposite(buy_on)
    &&& c.buy_book == crate::price_store::book_of(p, buy_on)
    &&& c.sell_book == crate::price_store::book_of(p, opposite(buy_on))
    &&& c.buy_price == x.buy_price
    &&& c.sell_price == x.sell_price
    &&& c.spread == ev.spread
    &&& c.dynamic_entry == level_or_zero(
        ev.state.permit(millis_in(now_ns as int)) is Ok,
        ev.state.entry_level(),
    )
    &&& c.spread_velocity == ev.state.velocity
    &&& c.latency == (TradeLatency {
        opportunity_detected_ms: Some(millis_in(now_ns as int) as i64),
        detected_buy_ask: Some(x.buy_price),
        detected_sell_bid: Some(x.sell_price),
        detected_spread_pct: Some(c.spread),
        ..blank_latency(book_epoch(p, buy_on))
    })
}

/// What the scan of one coin found.
pub struct CoinScan {
    /// What is told of each direction that was evaluated.
    pub records: Vec<OpportunityRecord>,
    pub candidate: Option<OpenCandidate>,
}

/// The scanner: the statistics of both directions.
pub struct Scanner {
    /// Buying on Binance, selling on Bybit.
    pub from_binance: StatsTable,
    /// Buying on Bybit, selling on Binance.
    pub from_bybit: StatsTable,
}

/// What the scan of a coin finds, and what the statistics of the coin are
/// afterwards: both books must be recent and all four best prices known; buying
/// on Binance is looked at first, buying on Bybit only where that is not an
/// opportunity.
pub open spec fn coin_scanned(
    before: Scanner,
    after: Scanner,
    r: CoinScan,
    coin: Seq<char>,
    p: CoinPrices,
    binance_age: Option<u128>,
    bybit_age: Option<u128>,
    size: int,
    now_ns: i64,
) -> bool {
    if !recent(binance_age) || !recent(bybit_age) || tops_of(p) is None {
        &&& same_stats(before.from_binance, after.from_binance, coin)
        &&& same_stats(before.from_bybit, after.from_bybit, coin)
        &&& r.records@.len() == 0
        &&& r.candidate is None
    } else {
        let t = tops_of(p)->Some_0;
        let xa = entry_crossing(t, Exchange::Binance);
        let xb = entry_crossing(t, Exchange::Bybit);
        let now = now_ns as int;
        let a = evaluated(before.from_binance.state_of(coin), xa, size, millis_in(now));
        let b = evaluated(before.from_bybit.state_of(coin), xb, size, millis_in(now));
        &&& after.from_binance.knows(coin)
        &&& after.from_binance.state_of(coin) == a.state
        &&& r.records@.len() >= 1
        &&& tells_evaluated(r.records@[0], coin, "Binance->Bybit"@, t.binance_bid, xa, a, now)
        &&& a.reject is None ==> {
            &&& same_stats(before.from_bybit, after.from_bybit, coin)
            &&& r.records@.len() == 1
            &&& r.candidate is Some
            &&& is_candidate(r.candidate->Some_0, coin, p, t, Exchange::Binance, a, now_ns)
        }
        &&& a.reject is Some ==> {
            &&& after.from_bybit.knows(coin)
            &&& after.from_bybit.state_of(coin) == b.state
            &&& r.records@.len() == 2
            &&& tells_evaluated(r.records@[1], coin, "Bybit->Binance"@, t.bybit_bid, xb, b, now)
            &&& r.candidate is Some <==> b.reject is None
            &&& r.candidate is Some ==> is_candidate(
                r.candidate->Some_0,
                coin,
                p,
                t,
                Exchange::Bybit,
                b,
                now_ns,
            )
        }
    }
}

/// Whether the statistics of a coin are the same in two tables.
pub open spec fn same_stats(a: StatsTable, b: StatsTable, coin: Seq<char>) -> bool {
    a.knows(coin) == b.knows(coin) && a.state_of(coin) == b.state_of(coin)
}

impl Scanner {
    /// The statistics of both directions are well-formed.
    pub open spec fn wf(&self) -> bool {
        self.from_binance.wf() && self.from_bybit.wf()
    }

    /// The statistics of the direction that buys on an exchange.
    pub open spec fn table(&self, buy_on: Exchange) -> StatsTable {
        match buy_on {
            Exchange::Binance => self.from_binance,
            Exchange::Bybit => self.from_bybit,
        }
    }

    /// A scanner that has seen nothing.
    pub fn new(config: DynamicSpreadConfig, startup_ms: u64) -> (s: Scanner)
        requires
            config_fits(config),
        ensures
            s.wf(),
            forall|e: Exchange, k: Seq<char>| !#[trigger] s.table(e).knows(k),
            forall|e: Exchange, k: Seq<char>| #[trigger]
                s.table(e).state_of(k) == fresh_state(config, startup_ms as int),
    {
        Scanner {
            from_binance: StatsTable::new(config, startup_ms),
            from_bybit: StatsTable::new(config, startup_ms),
        }
    }

    fn observe(
        &mut self,
        coin: &str,
        prices: &CoinPrices,
        tops: &Tops,
        buy_on: Exchange,
        size: u64,
        now_ns: i64,
    ) -> (r: (Option<OpenCandidate>, OpportunityRecord))
        requires
            old(self).wf(),
            tops_of(*prices) == Some(*tops),
            size <= MAX_AMOUNT,
            now_ns >= 0,
        ensures
            final(self).wf(),
            final(self).table(opposite(buy_on)) == old(self).table(opposite(buy_on)),
            forall|k: Seq<char>| #[trigger]
                final(self).table(buy_on).knows(k) == (old(self).table(buy_on).knows(k) || k
                    == coin@),
            forall|k: Seq<char>|
                k != coin@ ==> #[trigger] final(self).table(buy_on).state_of(k) == old(self).table(
                    buy_on,
                ).state_of(k),
            ({
                let x = entry_crossing(*tops, buy_on);
                let ev = evaluated(
                    old(self).table(buy_on).state_of(coin@),
                    x,
                    size as int,
                    millis_in(now_ns as int),
                );
                &&& final(self).table(buy_on).state_of(coin@) == ev.state
                &&& tells_evaluated(
                    r.1,
                    coin@,
                    direction_name(buy_on),
                    top_bid(*tops, buy_on),
                    x,
                    ev,
                    now_ns as int,
                )
                &&& r.0 is Some <==> ev.reject is None
                &&& r.0 is Some ==> is_candidate(
                    r.0->Some_0,
                    coin@,
                    *prices,
                    *tops,
                    buy_on,
                    ev,
                    now_ns,
                )
            }),
    {
        let x = cross_entry(tops, buy_on);
        let (e, record) = match buy_on {
            Exchange::Binance => self.from_binance.observe(
                coin,
                "Binance->Bybit",
                tops.binance_bid,
                &x,
                size,
                now_ns,
            ),
            Exchange::Bybit => self.from_bybit.observe(
                coin,
                "Bybit->Binance",
                tops.bybit_bid,
                &x,
                size,
                now_ns,
            ),
        };
        if e.reject.is_some() {
            return (None, record);
        }
        let (buy_book, sell_book, sell_ex, epoch) = match buy_on {
            Exchange::Binance => (
                prices.binance_book,
                prices.bybit_book,
                Exchange::Bybit,
                prices.binance_book_epoch_ms,
            ),
            Exchange::Bybit => (
                prices.bybit_book,
                prices.binance_book,
                Exchange::Binance,
                prices.bybit_book_epoch_ms,
            ),
        };
        let mut latency = TradeLatency::new(epoch);
        latency.mark_detected_at(whole_millis(now_ns) as i64, x.buy_price, x.sell_price, e.spread);
        let candidate = OpenCandidate {
            coin: coin.to_owned(),
            buy_ex: buy_on,
            sell_ex,
            buy_book,
            sell_book,
            buy_price: x.buy_price,
            sell_price: x.sell_price,
            spread: e.spread,
            dynamic_entry: record.dynamic_entry_threshold_pct,
            spread_velocity: record.spread_velocity,
            latency,
        };
        (Some(candidate), record)
    }

    /// Scans a coin for an opportunity: both books must be recent and all four
    /// best prices known; buying on Binance is looked at first, buying on Bybit
    /// only where that is not an opportunity. The ages are those of the books.
    pub fn scan_coin(
        &mut self,
        coin: &str,
        prices: &CoinPrices,
        binance_age: Option<u128>,
        bybit_age: Option<u128>,
        size: u64,
        now_ns: i64,
    ) -> (r: CoinScan)
        requires
            old(self).wf(),
            size <= MAX_AMOUNT,
            now_ns >= 0,
        ensures
            final(self).wf(),
            forall|e: Exchange, k: Seq<char>|
                k != coin@ ==> #[trigger] final(self).table(e).state_of(k) == old(self).table(
                    e,
                ).state_of(k),
            forall|e: Exchange, k: Seq<char>|
                k != coin@ ==> #[trigger] final(self).table(e).knows(k) == old(self).table(
                    e,
                ).knows(k),
            coin_scanned(
                *old(self),
                *final(self),
                r,
                coin@,
                *prices,
                binance_age,
                bybit_age,
                size as int,
                now_ns,
            ),
    {
        let mut records: Vec<OpportunityRecord> = Vec::new();
        if !is_recent(binance_age) || !is_recent(bybit_age) {
            return CoinScan { records, candidate: None };
        }
        let tops = match read_tops(prices) {
            Some(t) => t,
            None => {
                return CoinScan { records, candidate: None };
            },
        };
        assert(forall|s: Scanner| #[trigger] s.table(Exchange::Binance) == s.from_binance);
        assert(forall|s: Scanner| #[trigger] s.table(Exchange::Bybit) == s.from_bybit);
        let (first, told) = self.observe(coin, prices, &tops, Exchange::Binance, size, now_ns);
        let ghost middle = *self;
        assert(middle.table(opposite(Exchange::Binance)) == old(self).from_bybit);
        records.push(told);
        if first.is_some() {
            return CoinScan { records, candidate: first };
        }
        let (second, told_too) = self.observe(coin, prices, &tops, Exchange::Bybit, size, now_ns);
        assert(self.table(opposite(Exchange::Bybit)) == middle.from_binance);
        records.push(told_too);
        CoinScan { records, candidate: second }
    }
}

/// What a pass over the market found.
pub struct MarketScan {
    pub records: Vec<OpportunityRecord>,
    pub candidates: Vec<OpenCandidate>,
}

/// All that the scans of the first `n` coins tell, in their order.
pub open spec fn all_records(scans: Seq<CoinScan>, n: int) -> Seq<OpportunityRecord>
    decreases n,
{
    if n <= 0 {
        Seq::empty()
    } else {
        all_records(scans, n - 1) + scans[n - 1].records@
    }
}

/// The candidates that the scans of the first `n` coins found, in their order.
pub open spec fn all_candidates(scans: Seq<CoinScan>, n: int) -> Seq<OpenCandidate>
    decreases n,
{
    if n <= 0 {
        Seq::empty()
    } else {
        match scans[n - 1].candidate {
            Some(c) => all_candidates(scans, n - 1).push(c),
            None => all_candidates(scans, n - 1),
        }
    }
}

/// Whether no coin is listed twice.
pub open spec fn coins_differ(entries: Seq<(String, CoinPrices)>) -> bool {
    forall|i: int, j: int|
        0 <= i < j < entries.len() ==> (#[trigger] entries[i]).0@ != (#[trigger] entries[j]).0@
}

/// Whether a coin is listed.
pub open spec fn lists_coin(entries: Seq<(String, CoinPrices)>, coin: Seq<char>) -> bool {
    exists|i: int| 0 <= i < entries.len() && (#[trigger] entries[i]).0@ == coin
}

/// Whether scans are those of the listed coins, each scanned once with books of
/// the given ages, and the statistics of other coins stay.
pub open spec fn entries_scanned(
    before: Scanner,
    after: Scanner,
    scans: Seq<CoinScan>,
    entries: Seq<(String, CoinPrices)>,
    ages: Seq<(Option<u128>, Option<u128>)>,
    size: int,
    now_ns: i64,
) -> bool {
    &&& scans.len() == entries.len()
    &&& forall|i: int|
        0 <= i < entries.len() ==> coin_scanned(
            before,
            after,
            #[trigger] scans[i],
            entries[i].0@,
            entries[i].1,
            ages[i].0,
            ages[i].1,
            size,
            now_ns,
        )
    &&& forall|e: Exchange, coin: Seq<char>|
        !lists_coin(entries, coin) ==> #[trigger] after.table(e).state_of(coin) == before.table(
            e,
        ).state_of(coin)
}

/// Whether a pass over the market found what the scans of the listed coins find.
pub open spec fn market_scanned(
    before: Scanner,
    after: Scanner,
    r: MarketScan,
    entries: Seq<(String, CoinPrices)>,
    ages: Seq<(Option<u128>, Option<u128>)>,
    size: int,
    now_ns: i64,
) -> bool {
    exists|scans: Seq<CoinScan>|
        {
            &&& #[trigger] entries_scanned(before, after, scans, entries, ages, size, now_ns)
            &&& r.records@ == all_records(scans, scans.len() as int)
            &&& r.candidates@ == all_candidates(scans, scans.len() as int)
        }
}

/// The statistics of a coin are those of the tables of both directions.
proof fn lemma_tables(a: Scanner, b: Scanner, coin: Seq<char>)
    ensures
        a.from_binance == a.table(Exchange::Binance),
        a.from_bybit == a.table(Exchange::Bybit),
        b.from_binance == b.table(Exchange::Binance),
        b.from_bybit == b.table(Exchange::Bybit),
        same_stats(a.from_binance, b.from_binance, coin) == (a.table(Exchange::Binance).knows(coin)
            == b.table(Exchange::Binance).knows(coin) && a.table(Exchange::Binance).state_of(coin)
            == b.table(Exchange::Binance).state_of(coin)),
        same_stats(a.from_bybit, b.from_bybit, coin) == (a.table(Exchange::Bybit).knows(coin)
            == b.table(Exchange::Bybit).knows(coin) && a.table(Exchange::Bybit).state_of(coin)
            == b.table(Exchange::Bybit).state_of(coin)),
{
}

/// What the first scans tell does not depend on those that follow.
proof fn lemma_first_scans(scans: Seq<CoinScan>, more: Seq<CoinScan>, n: int)
    requires
        0 <= n <= scans.len() <= more.len(),
        forall|i: int| 0 <= i < n ==> scans[i] == more[i],
    ensures
        all_records(scans, n) == all_records(more, n),
        all_candidates(scans, n) == all_candidates(more, n),
    decreases n,
{
    if n > 0 {
        lemma_first_scans(scans, more, n - 1);
    }
}

impl Scanner {
    /// Scans the listed coins, each once. `ages` are the ages of the books of
    /// each coin on Binance and on Bybit.
    pub fn scan_entries(
        &mut self,
        entries: &Vec<(String, CoinPrices)>,
        ages: &Vec<(Option<u128>, Option<u128>)>,
        size: u64,
        now_ns: i64,
    ) -> (r: MarketScan)
        requires
            old(self).wf(),
            coins_differ(entries@),
            ages@.len() == entries@.len(),
            size <= MAX_AMOUNT,
            now_ns >= 0,
        ensures
            final(self).wf(),
            market_scanned(
                *old(self),
                *final(self),
                r,
                entries@,
                ages@,
                size as int,
                now_ns,
            ),
    {
        let mut records: Vec<OpportunityRecord> = Vec::new();
        let mut candidates: Vec<OpenCandidate> = Vec::new();
        let ghost mut scans: Seq<CoinScan> = Seq::empty();
        let mut i: usize = 0;
        while i < entries.len()
            invariant
                i <= entries@.len(),
                self.wf(),
                coins_differ(entries@),
                ages@.len() == entries@.len(),
                size <= MAX_AMOUNT,
                now_ns >= 0,
                scans.len() == i,
                records@ == all_records(scans, i as int),
                candidates@ == all_candidates(scans, i as int),
                forall|j: int|
                    0 <= j < i ==> coin_scanned(
                        *old(self),
                        *self,
                        #[trigger] scans[j],
                        entries@[j].0@,
                        entries@[j].1,
                        ages@[j].0,
                        ages@[j].1,
                        size as int,
                        now_ns,
                    ),
                forall|e: Exchange, coin: Seq<char>|
                    (forall|j: int| 0 <= j < i ==> (#[trigger] entries@[j]).0@ != coin)
                        ==> #[trigger] self.table(e).state_of(coin) == old(self).table(e).state_of(
                        coin,
                    ),
                forall|e: Exchange, coin: Seq<char>|
                    (forall|j: int| 0 <= j < i ==> (#[trigger] entries@[j]).0@ != coin)
                        ==> #[trigger] self.table(e).knows(coin) == old(self).table(e).knows(coin),
            decreases entries@.len() - i,
        {
            let ghost before = *self;
            let ghost seen = scans;
            let coin = entries[i].0.as_str();
            let mut found = self.scan_coin(
                coin,
                &entries[i].1,
                ages[i].0,
                ages[i].1,
                size,
                now_ns,
            );
            proof {
                scans = scans.push(found);
                lemma_first_scans(seen, scans, i as int);
                lemma_tables(*old(self), before, coin@);
                assert forall|j: int| 0 <= j < i + 1 implies coin_scanned(
                    *old(self),
                    *self,
                    #[trigger] scans[j],
                    entries@[j].0@,
                    entries@[j].1,
                    ages@[j].0,
                    ages@[j].1,
                    size as int,
                    now_ns,
                ) by {
                    if j < i {
                        assert(scans[j] == seen[j]);
                        assert(entries@[j].0@ != entries@[i as int].0@);
                        lemma_tables(before, *self, entries@[j].0@);
                    }
                }
            }
            records.append(&mut found.records);
            if let Some(c) = found.candidate {
                candidates.push(c);
            }
            i = i + 1;
        }
        assert(entries_scanned(
            *old(self),
            *self,
            scans,
            entries@,
            ages@,
            size as int,
            now_ns,
        ));
        MarketScan { records, candidates }
    }

    /// Scans all coins of a store, where both exchanges are enabled. How old the
    /// books are, and in which order the store lists its coins, is up to the
    /// machine; each coin is scanned once.
    pub fn scan_market(
        &mut self,
        store: &PriceStore,
        status: &ExchangeStatus,
        size: u64,
        now_ns: i64,
    ) -> (r: MarketScan)
        requires
            old(self).wf(),
            size <= MAX_AMOUNT,
            now_ns >= 0,
        ensures
            final(self).wf(),
            !status.binance_enabled || !status.bybit_enabled ==> {
                &&& *final(self) == *old(self)
                &&& r.records@.len() == 0
                &&& r.candidates@.len() == 0
            },
            status.binance_enabled && status.bybit_enabled ==> exists|
                entries: Seq<(String, CoinPrices)>,
                ages: Seq<(Option<u128>, Option<u128>)>,
            |
                {
                    &&& lists_entries(entries, store@)
                    &&& ages.len() == entries.len()
                    &&& ages_known(entries, ages)
                    &&& #[trigger] market_scanned(
                        *old(self),
                        *final(self),
                        r,
                        entries,
                        ages,
                        size as int,
                        now_ns,
                    )
                },
    {
        if !status.binance_enabled || !status.bybit_enabled {
            return MarketScan { records: Vec::new(), candidates: Vec::new() };
        }
        let entries = store.entries();
        let mut ages: Vec<(Option<u128>, Option<u128>)> = Vec::new();
        let mut i: usize = 0;
        while i < entries.len()
            invariant
                i <= entries@.len(),
                ages@.len() == i,
                ages_known(entries@, ages@),
            decreases entries@.len() - i,
        {
            let prices = &entries[i].1;
            ages.push((age_of(prices.binance_book_updated), age_of(prices.bybit_book_updated)));
            i = i + 1;
        }
        self.scan_entries(&entries, &ages, size, now_ns)
    }
}

/// Whether a book has an age where it was ever updated, and only there.
pub open spec fn ages_known(
    entries: Seq<(String, CoinPrices)>,
    ages: Seq<(Option<u128>, Option<u128>)>,
) -> bool {
    forall|k: int|
        0 <= k < ages.len() ==> ((#[trigger] ages[k]).0 is Some
            <==> entries[k].1.binance_book_updated is Some) && (ages[k].1 is Some
            <==> entries[k].1.bybit_book_updated is Some)
}

/// The spread % that stands for a close forced by funding.
pub const FORCED_SPREAD: i128 = -99_900_000_000;

/// Seconds that a position is held at least before funding forces it closed.
pub const MIN_FORCED_HOLD_SECS: i64 = 10;

/// What the scan says of an open position.
#[derive(Debug, Clone, Copy, PartialEq, Eq)]
pub struct CloseSignal {
    /// The current spread and the dynamic exit threshold, where the position is
    /// to be closed.
    pub close: Option<(i128, i128)>,
    /// Whether the position is to be closed because of funding.
    pub force: bool,
}

/// The price of an exchange.
pub open spec fn price_on(binance: Option<u64>, bybit: Option<u64>, e: Exchange) -> Option<u64> {
    match e {
        Exchange::Binance => binance,
        Exchange::Bybit => bybit,
    }
}

/// The prices of the exchanges that are enabled.
pub open spec fn prices_enabled(
    status: ExchangeStatus,
    prices: (Option<u64>, Option<u64>),
) -> (Option<u64>, Option<u64>) {
    (
        if status.binance_enabled {
            prices.0
        } else {
            None
        },
        if status.bybit_enabled {
            prices.1
        } else {
            None
        },
    )
}

/// The prices of the exchanges that are enabled.
pub fn enabled_prices(
    status: &ExchangeStatus,
    prices: (Option<u64>, Option<u64>),
) -> (r: (Option<u64>, Option<u64>))
    ensures
        r == prices_enabled(*status, prices),
{
    (
        if status.binance_enabled {
            prices.0
        } else {
            None
        },
        if status.bybit_enabled {
            prices.1
        } else {
            None
        },
    )
}

/// Whether a position was held longer than the maximum.
pub open spec fn overdue(p: OpenPosition, now_ns: int, config: DynamicSpreadConfig) -> bool {
    crate::stats::less(millis_in(now_ns), millis_in(p.open_time_ns as int))
        > config.max_arbitrage_hold_time_ms
}

impl Scanner {
    /// Whether the statistics call for closing a position, and the dynamic exit
    /// threshold. Without statistics, or where the exit cannot be filled, they
    /// do not.
    pub open spec fn exit_call(
        &self,
        p: OpenPosition,
        t: Tops,
        size: int,
        now_ns: int,
        config: DynamicSpreadConfig,
    ) -> (bool, int) {
        let x = exit_crossing(t, p.buy_exchange);
        let table = self.table(p.buy_exchange);
        let state = table.state_of(p.coin@);
        match crossing_spread(x, size, config) {
            Ok(s) if table.knows(p.coin@) => (
                state.exit_signal(s, millis_in(now_ns), millis_in(p.open_time_ns as int)),
                level_or_zero(state.permit(millis_in(now_ns)) is Ok, state.exit_level()),
            ),
            _ => (false, 0),
        }
    }

    /// What the scan says of an open position: it is closed where both prices
    /// are known, the statistics call for it, it was held long enough, and its
    /// spread has converged or it is overdue; near funding it is closed by force.
    /// Without all best prices it is not closed for its spread, and where it is left
    /// for manual review not at all.
    pub open spec fn signal_of(
        &self,
        p: OpenPosition,
        prices: CoinPrices,
        binance: Option<u64>,
        bybit: Option<u64>,
        near_funding: bool,
        params: TradingParams,
        now_ns: int,
        config: DynamicSpreadConfig,
    ) -> CloseSignal {
        let bp = price_on(binance, bybit, p.buy_exchange);
        let sp = price_on(binance, bybit, p.sell_exchange);
        let force = p.leg_left is None && near_funding && bp is Some && sp is Some;
        match (positive(bp), positive(sp)) {
            (Some(b), Some(s)) => match tops_of(prices) {
                None => CloseSignal { close: None, force },
                Some(t) => {
                    let call = self.exit_call(
                        p,
                        t,
                        params.trade_size_usdt as int,
                        now_ns,
                        config,
                    );
                    let held = seconds_between(p.open_time_ns as int, now_ns)
                        >= params.min_hold_secs;
                    let spread = pct_change_spec(b as int, s as int);
                    let ripe = spread <= params.exit_spread_threshold || overdue(p, now_ns, config);
                    CloseSignal {
                        close: if p.leg_left is None && call.0 && held && ripe {
                            Some((spread as i128, call.1 as i128))
                        } else {
                            None
                        },
                        force,
                    }
                },
            },
            _ => CloseSignal { close: None, force },
        }
    }

    fn stats_for(&self, coin: &str, buy_on: Exchange) -> (r: Option<&RollingStats>)
        requires
            self.wf(),
        ensures
            match r {
                Some(s) => s.wf() && self.table(buy_on).knows(coin@) && s@ == self.table(
                    buy_on,
                ).state_of(coin@),
                None => !self.table(buy_on).knows(coin@),
            },
    {
        let table = match buy_on {
            Exchange::Binance => &self.from_binance,
            Exchange::Bybit => &self.from_bybit,
        };
        match table.index.get(coin) {
            Some(i) => {
                assert(table.slots@[*i as int].wf());
                Some(&table.slots[*i])
            },
            None => None,
        }
    }

    /// What the scan says of an open position. `binance` and `bybit` are the
    /// current prices of the enabled exchanges.
    pub fn close_signal(
        &self,
        p: &OpenPosition,
        prices: &CoinPrices,
        binance: Option<u64>,
        bybit: Option<u64>,
        near_funding: bool,
        params: &TradingParams,
        now_ns: i64,
        config: &DynamicSpreadConfig,
    ) -> (r: CloseSignal)
        requires
            self.wf(),
            params.wf(),
            now_ns >= 0,
        ensures
            r == self.signal_of(
                *p,
                *prices,
                binance,
                bybit,
                near_funding,
                *params,
                now_ns as int,
                *config,
            ),
    {
        if p.leg_left.is_some() {
            return CloseSignal { close: None, force: false };
        }
        let bp: Option<u64> = match p.buy_exchange {
            Exchange::Binance => binance,
            Exchange::Bybit => bybit,
        };
        let sp: Option<u64> = match p.sell_exchange {
            Exchange::Binance => binance,
            Exchange::Bybit => bybit,
        };
        let force: bool = near_funding && bp.is_some() && sp.is_some();
        if let (Some(b), Some(s)) = (positive_of(bp), positive_of(sp)) {
            let tops = match read_tops(prices) {
                Some(t) => t,
                None => {
                    return CloseSignal { close: None, force };
                },
            };
            let current_spread: i128 = pct_change(b, s);
            let x = cross_exit(&tops, p.buy_exchange);
            let now_ms: u64 = whole_millis(now_ns);
            let open_ms: u64 = whole_millis(p.open_time_ns);
            let mut called: bool = false;
            let mut dynamic_exit: i128 = 0;
            if let Some(exit_spread) = measure_crossing(&x, params.trade_size_usdt, config) {
                if let Some(stats) = self.stats_for(p.coin.as_str(), p.buy_exchange) {
                    called = stats.evaluate_exit(exit_spread, now_ms, open_ms);
                    dynamic_exit = threshold_or_zero(stats.get_exit_threshold(now_ms));
                }
            }
            let held: bool = whole_seconds(p.open_time_ns, now_ns) >= params.min_hold_secs;
            let open_for: u64 = now_ms.saturating_sub(open_ms);
            let ripe: bool = current_spread <= params.exit_spread_threshold as i128 || open_for
                > config.max_arbitrage_hold_time_ms;
            if called && held && ripe {
                return CloseSignal { close: Some((current_spread, dynamic_exit)), force };
            }
        }
        CloseSignal { close: None, force }
    }
}

/// Why a candidate is not even looked at by the engine.
#[derive(Debug, Clone, Copy, PartialEq, Eq, Structural)]
pub enum ScanRefusal {
    SessionLimit { limit: u32, taken: u32 },
    TradingPaused,
    Full { open: usize },
}

impl LiveTradingEngine {
    /// Whether the position on a coin was held long enough to be closed by force.
    pub open spec fn force_due(&self, coin: Seq<char>, now_ns: int) -> bool {
        match place_of(self.open_positions@, coin, 0) {
            Some(k) => seconds_between(self.open_positions@[k].open_time_ns as int, now_ns)
                >= MIN_FORCED_HOLD_SECS,
            None => false,
        }
    }

    /// Whether the position on a coin was held long enough to be closed by force.
    pub fn may_force_close(&self, coin: &str, now_ns: i64) -> (r: bool)
        ensures
            r == self.force_due(coin@, now_ns as int),
    {
        match self.position_index(coin) {
            Some(k) => whole_seconds(self.open_positions[k].open_time_ns, now_ns)
                >= MIN_FORCED_HOLD_SECS,
            None => false,
        }
    }

    /// Why no candidate may be executed: the session has had its trades, trading
    /// is off, or the engine is full.
    pub open spec fn admission(&self, status: ExchangeStatus) -> Option<ScanRefusal> {
        if status.trade_limit > 0 && status.session_trades_taken >= status.trade_limit {
            Some(
                ScanRefusal::SessionLimit {
                    limit: status.trade_limit,
                    taken: status.session_trades_taken,
                },
            )
        } else if !status.trading_enabled {
            Some(ScanRefusal::TradingPaused)
        } else if self.open_positions@.len() >= self.params.max_open_positions {
            Some(ScanRefusal::Full { open: self.open_positions@.len() as usize })
        } else {
            None
        }
    }

    /// Why no candidate may be executed, nothing where one may.
    pub fn check_admission(&self, status: &ExchangeStatus) -> (r: Option<ScanRefusal>)
        ensures
            r == self.admission(*status),
    {
        if status.trade_limit > 0 && status.session_trades_taken >= status.trade_limit {
            return Some(
                ScanRefusal::SessionLimit {
                    limit: status.trade_limit,
                    taken: status.session_trades_taken,
                },
            );
        }
        if !status.trading_enabled {
            return Some(ScanRefusal::TradingPaused);
        }
        if self.open_positions.len() >= self.params.max_open_positions {
            return Some(ScanRefusal::Full { open: self.open_positions.len() });
        }
        None
    }

    /// Why no candidate may be executed, in words.
    pub open spec fn admission_text(&self, r: ScanRefusal) -> Seq<char> {
        match r {
            ScanRefusal::SessionLimit { limit, taken } => "SESSION_LIMIT_REACHED: Session limit of "@
                + nat_text(limit as nat) + " trades reached ("@ + nat_text(taken as nat) + "/"@
                + nat_text(limit as nat) + ")"@,
            ScanRefusal::TradingPaused =>
                "TRADING_PAUSED: Trading is disabled in TUI (press T to enable)"@,
            ScanRefusal::Full { open } => full_text(
                open as int,
                self.params.max_open_positions as int,
                coins_of(self.open_positions@),
            ),
        }
    }

    /// Why no candidate may be executed, in words.
    pub fn admission_reason(&self, r: &ScanRefusal) -> (s: String)
        ensures
            s@ == self.admission_text(*r),
    {
        match *r {
            ScanRefusal::SessionLimit { limit, taken } => {
                let mut s = "SESSION_LIMIT_REACHED: Session limit of ".to_owned();
                push_nat(&mut s, limit as u128);
                s.append(" trades reached (");
                push_nat(&mut s, taken as u128);
                s.append("/");
                push_nat(&mut s, limit as u128);
                s.append(")");
                s
            },
            ScanRefusal::TradingPaused =>
                "TRADING_PAUSED: Trading is disabled in TUI (press T to enable)".to_owned(),
            ScanRefusal::Full { open } => self.full_reason(open),
        }
    }
}

/// Whether a trade was counted, and whether that reached the limit of the session.
pub open spec fn trade_noted(before: ExchangeStatus, after: ExchangeStatus, reached: bool) -> bool {
    &&& after.session_trades_taken == before.session_trades_taken.wrapping_add(1)
    &&& after == (ExchangeStatus { session_trades_taken: after.session_trades_taken, ..before })
    &&& reached == (before.trade_limit > 0 && after.session_trades_taken >= before.trade_limit)
}

impl ExchangeStatus {
    /// Counts a trade that was opened. Whether the limit of the session is now
    /// reached.
    pub fn note_trade(&mut self) -> (reached: bool)
        ensures
            trade_noted(*old(self), *final(self), reached),
    {
        self.session_trades_taken = self.session_trades_taken.wrapping_add(1);
        self.trade_limit > 0 && self.session_trades_taken >= self.trade_limit
    }
}

/// Loops between two balance refreshes.
pub const REFRESH_EVERY: u64 = 600;

/// Whether the balances are refreshed in a loop.
pub fn refresh_due(loop_count: u64) -> (r: bool)
    ensures
        r == (loop_count % REFRESH_EVERY == 0),
{
    loop_count % REFRESH_EVERY == 0
}

/// Whether an order of execution ranks candidates: each comes once, a larger
/// spread before a smaller one, and of equal spreads the one found first.
pub open spec fn is_ranking(order: Seq<usize>, c: Seq<OpenCandidate>) -> bool {
    &&& order.len() == c.len()
    &&& forall|i: int| 0 <= i < order.len() ==> (#[trigger] order[i]) < c.len()
    &&& ranked(order, c)
}

/// Whether no place comes before one that ranks higher.
pub open spec fn ranked(order: Seq<usize>, c: Seq<OpenCandidate>) -> bool {
    forall|i: int, j: int|
        #![trigger order[i], order[j]]
        0 <= i < j < order.len() ==> {
            ||| c[order[i] as int].spread > c[order[j] as int].spread
            ||| c[order[i] as int].spread == c[order[j] as int].spread && order[i] < order[j]
        }
}

/// The order in which candidates are executed: the largest spread first, equal
/// ones as they were found.
pub fn rank_candidates(c: &Vec<OpenCandidate>) -> (order: Vec<usize>)
    ensures
        is_ranking(order@, c@),
{
    let mut order: Vec<usize> = Vec::new();
    let mut k: usize = 0;
    while k < c.len()
        invariant
            k <= c@.len(),
            order@.len() == k,
            forall|i: int| 0 <= i < order@.len() ==> (#[trigger] order@[i]) < k,
            ranked(order@, c@),
        decreases c@.len() - k,
    {
        let mut at: usize = order.len();
        while at > 0 && c[order[at - 1]].spread < c[k].spread
            invariant
                k < c@.len(),
                at <= order@.len() == k,
                forall|i: int| 0 <= i < order@.len() ==> (#[trigger] order@[i]) < k,
                forall|i: int|
                    at <= i < order@.len() ==> c@[(#[trigger] order@[i]) as int].spread
                        < c@[k as int].spread,
            decreases at,
        {
            at = at - 1;
        }
        let ghost before = order@;
        order.insert(at, k);
        proof {
            lemma_ranked_insert(before, c@, at as int, k);
        }
        k = k + 1;
    }
    order
}

/// Inserting a later place before all that rank lower, and behind all that do
/// not, keeps the ranking.
proof fn lemma_ranked_insert(order: Seq<usize>, c: Seq<OpenCandidate>, at: int, k: usize)
    requires
        k < c.len(),
        0 <= at <= order.len(),
        ranked(order, c),
        forall|i: int| 0 <= i < order.len() ==> (#[trigger] order[i]) < k,
        forall|i: int|
            at <= i < order.len() ==> c[(#[trigger] order[i]) as int].spread < c[k as int].spread,
        at > 0 ==> c[order[at - 1] as int].spread >= c[k as int].spread,
    ensures
        ranked(order.insert(at, k), c),
        forall|i: int|
            0 <= i < order.len() + 1 ==> (#[trigger] order.insert(at, k)[i]) < k + 1,
{
    let all = order.insert(at, k);
    assert forall|i: int, j: int|
        #![trigger all[i], all[j]]
        0 <= i < j < all.len() implies {
        ||| c[all[i] as int].spread > c[all[j] as int].spread
        ||| c[all[i] as int].spread == c[all[j] as int].spread && all[i] < all[j]
    } by {
        let a = if i < at {
            i
        } else {
            i - 1
        };
        let b = if j < at {
            j
        } else {
            j - 1
        };
        if i != at {
            assert(all[i] == order[a]);
        }
        if j != at {
            assert(all[j] == order[b]);
        }
        if j == at {
            assert(order[a] < k);
            if a < at - 1 {
                assert(order[at - 1] < k);
            }
        }
    }
    assert forall|i: int| 0 <= i < order.len() + 1 implies (#[trigger] all[i]) < k + 1 by {
        if i < at {
            assert(all[i] == order[i]);
        } else if i > at {
            assert(all[i] == order[i - 1]);
        }
    }
}

/// No candidate is named twice in a ranking.
pub proof fn law_ranking_has_no_repeats(order: Seq<usize>, c: Seq<OpenCandidate>)
    requires
        is_ranking(order, c),
    ensures
        order.no_duplicates(),
{
    assert forall|i: int, j: int|
        0 <= i < order.len() && 0 <= j < order.len() && i != j implies order[i] != order[j] by {
        if i < j {
            assert(order[i] < c.len() && order[j] < c.len());
        } else {
            assert(order[j] < c.len() && order[i] < c.len());
        }
    }
}

/// A position is not closed for its spread before it was held long enough.
pub proof fn law_minimum_hold(
    sc: Scanner,
    p: OpenPosition,
    prices: CoinPrices,
    binance: Option<u64>,
    bybit: Option<u64>,
    near_funding: bool,
    params: TradingParams,
    now_ns: int,
    config: DynamicSpreadConfig,
)
    requires
        seconds_between(p.open_time_ns as int, now_ns) < params.min_hold_secs,
    ensures
        sc.signal_of(p, prices, binance, bybit, near_funding, params, now_ns, config).close is None,
{
}

/// A position is closed for its spread only where all conditions hold: both prices
/// are known, it was held long enough, its spread is no larger than the exit
/// threshold or it is overdue, and the statistics call for it.
pub proof fn law_close_conditions(
    sc: Scanner,
    p: OpenPosition,
    prices: CoinPrices,
    binance: Option<u64>,
    bybit: Option<u64>,
    near_funding: bool,
    params: TradingParams,
    now_ns: int,
    config: DynamicSpreadConfig,
)
    requires
        sc.signal_of(p, prices, binance, bybit, near_funding, params, now_ns, config).close is Some,
    ensures
        ({
            let bp = positive(price_on(binance, bybit, p.buy_exchange));
            let sp = positive(price_on(binance, bybit, p.sell_exchange));
            let spread = pct_change_spec(bp->Some_0 as int, sp->Some_0 as int);
            let size = params.trade_size_usdt as int;
            &&& bp is Some && sp is Some && tops_of(prices) is Some
            &&& seconds_between(p.open_time_ns as int, now_ns) >= params.min_hold_secs
            &&& spread <= params.exit_spread_threshold || overdue(p, now_ns, config)
            &&& sc.exit_call(p, tops_of(prices)->Some_0, size, now_ns, config).0
        }),
{
}

/// Away from funding nothing is closed by force; near it every position is whose
/// coin has both prices, unless it is left for review.
pub proof fn law_funding_forces_close(
    sc: Scanner,
    p: OpenPosition,
    prices: CoinPrices,
    binance: Option<u64>,
    bybit: Option<u64>,
    near_funding: bool,
    params: TradingParams,
    now_ns: int,
    config: DynamicSpreadConfig,
)
    requires
        p.buy_exchange != p.sell_exchange,
    ensures
        sc.signal_of(p, prices, binance, bybit, near_funding, params, now_ns, config).force == (
        p.leg_left is None && near_funding && binance is Some && bybit is Some),
{
}

/// The scan calls for nothing on a position that is left for review.
pub proof fn law_review_is_not_closed(
    sc: Scanner,
    p: OpenPosition,
    prices: CoinPrices,
    binance: Option<u64>,
    bybit: Option<u64>,
    near_funding: bool,
    params: TradingParams,
    now_ns: int,
    config: DynamicSpreadConfig,
)
    requires
        p.leg_left is Some,
    ensures
        sc.signal_of(p, prices, binance, bybit, near_funding, params, now_ns, config)
            == (CloseSignal { close: None, force: false }),
{
}

/// Nothing is executed while trading is off, nor beyond the limit of the session.
pub proof fn law_switches_block_execution(e: LiveTradingEngine, status: ExchangeStatus)
    requires
        !status.trading_enabled || (status.trade_limit > 0 && status.session_trades_taken
            >= status.trade_limit),
    ensures
        e.admission(status) is Some,
{
}

} // verus!
