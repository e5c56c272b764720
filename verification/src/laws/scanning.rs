//! The scan for opportunities in both directions.
use super::amounts::{is_percentage, is_quotient, law_percentage, lemma_quotient};
use crate::config::DynamicSpreadConfig;
use crate::live_trading::open::OpenCandidate;
use crate::live_trading::scan::{
    coin_scanned, crossing_spread, entry_crossing, evaluated, exit_crossing, is_candidate,
    one_level, tells_evaluated, tops_of, CoinScan, Crossing, Evaluated, Scanner, Tops,
};
use crate::opportunity_logger::OpportunityRecord;
use crate::price_store::{CoinPrices, Exchange, OrderBookEntry};
use crate::rejection::RejectionReason;
use crate::stats::{depth, fill_cost, walk_from, StatsState};
use vstd::prelude::*;

verus! {

/// One level fills a quantity at its own price, or does not fill it.
proof fn lemma_one_level(price: u64, qty: u64, target: int, levels: int, slip: int, is_buy: bool)
    ensures
        ({
            let r = crate::stats::vwap(one_level(price, qty), target, levels, slip, is_buy);
            &&& r is Ok ==> r->Ok_0 == price
            &&& r is Ok <==> 0 < target <= qty && levels > 0 && slip * price >= 0
        }),
{
    reveal_with_fuel(walk_from, 3);
    reveal_with_fuel(depth, 3);
    reveal_with_fuel(fill_cost, 3);
    if 0 < target <= qty {
        let p = price as int;
        assert((target * p) / target == p) by (nonlinear_arith)
            requires
                target > 0,
        ;
    }
}

/// What a trade across two best levels is measured by: it can be filled where both
/// levels hold the quantity that its size buys, and its spread is the percentage by
/// which the price that is sold at lies above the price that is bought at.
pub proof fn law_measured_spread(x: Crossing, size: int, config: DynamicSpreadConfig, n: int)
    requires
        x.buy_price > 0,
        is_quotient(n, size * 100_000_000, x.buy_price as int),
    ensures
        ({
            let r = crossing_spread(x, size, config);
            let slip = config.max_slippage_pct;
            &&& r is Ok <==> {
                &&& 0 < n <= x.buy_qty
                &&& n <= x.sell_qty
                &&& config.max_depth_levels > 0
                &&& slip >= 0 || slip * x.buy_price >= 0 && slip * x.sell_price >= 0
            }
            &&& r is Ok ==> is_percentage(r->Ok_0, x.buy_price as int, x.sell_price as int)
        }),
{
    let target = crate::live_trading::open::quantity_for(size, x.buy_price as int);
    lemma_quotient(size * 100_000_000, x.buy_price as int);
    super::amounts::lemma_quotient_unique(n, target, size * 100_000_000, x.buy_price as int);
    let levels = config.max_depth_levels as int;
    let slip = config.max_slippage_pct as int;
    lemma_one_level(x.buy_price, x.buy_qty, target, levels, slip, true);
    lemma_one_level(x.sell_price, x.sell_qty, target, levels, slip, false);
    law_percentage(x.buy_price as int, x.sell_price as int, x.sell_price as int);
    assert(slip >= 0 ==> slip * x.buy_price >= 0 && slip * x.sell_price >= 0) by (nonlinear_arith)
        requires
            x.buy_price >= 0,
            x.sell_price >= 0,
    ;
}

/// Whether the best levels of two books hold what a trade size buys at the ask of the
/// first. A quantity that is not known counts as none.
pub open spec fn can_fill(buy_book: OrderBookEntry, sell_book: OrderBookEntry, size: int) -> bool {
    let n = (size * 100_000_000) / (buy_book.best_ask->Some_0 as int);
    &&& n > 0
    &&& buy_book.best_ask_qty is Some && n <= buy_book.best_ask_qty->Some_0
    &&& sell_book.best_bid_qty is Some && n <= sell_book.best_bid_qty->Some_0
}

/// Whether a record, and what the statistics learn, are those of buying at the best ask
/// of one book and selling at the best bid of the other.
pub open spec fn priced_off(
    r: OpportunityRecord,
    buy_book: OrderBookEntry,
    sell_book: OrderBookEntry,
    size: int,
    before: StatsState,
    after: StatsState,
) -> bool {
    let ask = buy_book.best_ask->Some_0 as int;
    let bid = sell_book.best_bid->Some_0 as int;
    &&& buy_book.best_ask == Some(r.raw_ask)
    &&& buy_book.best_bid == Some(r.raw_bid)
    &&& buy_book.best_ask == Some(r.effective_buy_price)
    &&& sell_book.best_bid == Some(r.effective_sell_price)
    &&& is_percentage(r.gross_spread_pct as int, ask, bid)
    &&& r.net_edge_pct == r.effective_spread_pct
    &&& r.entry_decision <==> r.reject_reason is None
    &&& !can_fill(buy_book, sell_book, size) ==> {
        &&& r.reject_reason == Some(RejectionReason::INSUFFICIENT_LIQUIDITY)
        &&& r.effective_spread_pct == 0
        &&& after == before
    }
    &&& can_fill(buy_book, sell_book, size) ==> {
        &&& is_percentage(r.effective_spread_pct as int, ask, bid)
        &&& before.samples < usize::MAX ==> {
            &&& after.samples == before.samples + 1
            &&& after.last_spread == r.effective_spread_pct
        }
        &&& r.entry_decision ==> r.effective_spread_pct <= 1_000_000_000
    }
}

/// An evaluated opportunity is one across two prices.
proof fn lemma_evaluated(state: StatsState, x: Crossing, size: int, now: int)
    requires
        x.buy_price > 0,
        state.config.max_depth_levels > 0,
        state.config.max_slippage_pct >= 0,
    ensures
        ({
            let ev = evaluated(state, x, size, now);
            let n = (size * 100_000_000) / (x.buy_price as int);
            let fills = 0 < n <= x.buy_qty && n <= x.sell_qty;
            &&& !fills ==> {
                &&& ev.reject == Some(RejectionReason::INSUFFICIENT_LIQUIDITY)
                &&& ev.spread == 0
                &&& ev.state == state
            }
            &&& fills ==> {
                &&& is_percentage(ev.spread, x.buy_price as int, x.sell_price as int)
                &&& state.samples < usize::MAX ==> ev.state.last_spread == ev.spread
                    && ev.state.samples == state.samples + 1
                &&& ev.reject is None ==> ev.spread <= 1_000_000_000
            }
        }),
{
    let n = (size * 100_000_000) / (x.buy_price as int);
    lemma_quotient(size * 100_000_000, x.buy_price as int);
    law_measured_spread(x, size, state.config, n);
}

/// Whether statistics measure across at least one level and allow some slippage or
/// none.
pub open spec fn measures(state: StatsState) -> bool {
    state.config.max_depth_levels > 0 && state.config.max_slippage_pct >= 0
}

/// The scan of a coin prices both directions off the books: what is bought on an
/// exchange is bought at the best ask of its book, what is sold on the other is sold at
/// the best bid of that one's. Buying on Bybit is looked at only where buying on Binance
/// is not an opportunity. Books that are too old, or of which a best price is not known,
/// tell nothing.
pub proof fn law_scan_prices_off_the_books(
    before: Scanner,
    after: Scanner,
    r: CoinScan,
    coin: Seq<char>,
    p: CoinPrices,
    binance_age: Option<u128>,
    bybit_age: Option<u128>,
    size: int,
    now_ns: i64,
)
    requires
        coin_scanned(before, after, r, coin, p, binance_age, bybit_age, size, now_ns),
        measures(before.from_binance.state_of(coin)),
        measures(before.from_bybit.state_of(coin)),
    ensures
        ({
            let on_binance = p.binance_book;
            let on_bybit = p.bybit_book;
            let known = {
                &&& binance_age is Some && binance_age->Some_0 <= 2000
                &&& bybit_age is Some && bybit_age->Some_0 <= 2000
                &&& on_binance.best_ask is Some && on_binance.best_ask->Some_0 > 0
                &&& on_binance.best_bid is Some && on_binance.best_bid->Some_0 > 0
                &&& on_bybit.best_ask is Some && on_bybit.best_ask->Some_0 > 0
                &&& on_bybit.best_bid is Some && on_bybit.best_bid->Some_0 > 0
            };
            &&& !known ==> {
                &&& r.records@.len() == 0
                &&& r.candidate is None
                &&& after.from_binance.state_of(coin) == before.from_binance.state_of(coin)
                &&& after.from_bybit.state_of(coin) == before.from_bybit.state_of(coin)
            }
            &&& known ==> {
                &&& 1 <= r.records@.len() <= 2
                &&& r.records@[0].direction@ == "Binance->Bybit"@
                &&& priced_off(
                    r.records@[0],
                    on_binance,
                    on_bybit,
                    size,
                    before.from_binance.state_of(coin),
                    after.from_binance.state_of(coin),
                )
                &&& r.records@.len() == 1 <==> r.records@[0].entry_decision
                &&& r.records@.len() == 1 ==> after.from_bybit.state_of(coin)
                    == before.from_bybit.state_of(coin)
                &&& r.records@.len() == 2 ==> {
                    &&& r.records@[1].direction@ == "Bybit->Binance"@
                    &&& priced_off(
                        r.records@[1],
                        on_bybit,
                        on_binance,
                        size,
                        before.from_bybit.state_of(coin),
                        after.from_bybit.state_of(coin),
                    )
                }
                &&& forall|i: int|
                    0 <= i < r.records@.len() ==> {
                        &&& (#[trigger] r.records@[i]).symbol@ == coin
                        &&& r.records@[i].timestamp_ns == now_ns
                    }
                &&& r.candidate is Some <==> r.records@.last().entry_decision
            }
        }),
{
    if tops_of(p) is Some {
        let t = tops_of(p)->Some_0;
        lemma_direction(before.from_binance.state_of(coin), t, Exchange::Binance, size, now_ns);
        lemma_direction(before.from_bybit.state_of(coin), t, Exchange::Bybit, size, now_ns);
        law_percentage(t.binance_ask as int, t.bybit_bid as int, t.bybit_bid as int);
        law_percentage(t.bybit_ask as int, t.binance_bid as int, t.binance_bid as int);
    }
}

proof fn lemma_direction(
    state: StatsState,
    t: Tops,
    buy_on: Exchange,
    size: int,
    now_ns: i64,
)
    requires
        measures(state),
        t.binance_ask > 0,
        t.bybit_ask > 0,
    ensures
        ({
            let x = crate::live_trading::scan::entry_crossing(t, buy_on);
            let ev = evaluated(state, x, size, crate::clock::millis_in(now_ns as int));
            let n = (size * 100_000_000) / (x.buy_price as int);
            let fills = 0 < n <= x.buy_qty && n <= x.sell_qty;
            &&& !fills ==> {
                &&& ev.reject == Some(RejectionReason::INSUFFICIENT_LIQUIDITY)
                &&& ev.spread == 0
                &&& ev.state == state
            }
            &&& fills ==> {
                &&& is_percentage(ev.spread, x.buy_price as int, x.sell_price as int)
                &&& state.samples < usize::MAX ==> ev.state.last_spread == ev.spread
                    && ev.state.samples == state.samples + 1
                &&& ev.reject is None ==> ev.spread <= 1_000_000_000
            }
        }),
{
    let x = crate::live_trading::scan::entry_crossing(t, buy_on);
    lemma_evaluated(state, x, size, crate::clock::millis_in(now_ns as int));
}

/// A candidate is bought on one exchange and sold on the other, at the best ask of the
/// book of the first and the best bid of the book of the second, and carries both books
/// with it.
pub proof fn law_candidate_prices(
    before: Scanner,
    after: Scanner,
    r: CoinScan,
    coin: Seq<char>,
    p: CoinPrices,
    binance_age: Option<u128>,
    bybit_age: Option<u128>,
    size: int,
    now_ns: i64,
)
    requires
        coin_scanned(before, after, r, coin, p, binance_age, bybit_age, size, now_ns),
        measures(before.from_binance.state_of(coin)),
        measures(before.from_bybit.state_of(coin)),
        r.candidate is Some,
    ensures
        ({
            let c = r.candidate->Some_0;
            let told = r.records@.last();
            &&& c.coin@ == coin
            &&& c.buy_ex != c.sell_ex
            &&& c.buy_ex == Exchange::Binance ==> {
                &&& c.buy_book == p.binance_book
                &&& c.sell_book == p.bybit_book
                &&& c.latency.book_update_ms == p.binance_book_epoch_ms
                &&& r.records@.len() == 1
            }
            &&& c.buy_ex == Exchange::Bybit ==> {
                &&& c.buy_book == p.bybit_book
                &&& c.sell_book == p.binance_book
                &&& c.latency.book_update_ms == p.bybit_book_epoch_ms
                &&& r.records@.len() == 2
            }
            &&& c.buy_book.best_ask == Some(c.buy_price)
            &&& c.sell_book.best_bid == Some(c.sell_price)
            &&& can_fill(c.buy_book, c.sell_book, size)
            &&& is_percentage(c.spread as int, c.buy_price as int, c.sell_price as int)
            &&& c.spread <= 1_000_000_000
            &&& c.latency.detected_buy_ask == Some(c.buy_price)
            &&& c.latency.detected_sell_bid == Some(c.sell_price)
            &&& c.latency.detected_spread_pct == Some(c.spread)
        }),
{
    law_scan_prices_off_the_books(
        before,
        after,
        r,
        coin,
        p,
        binance_age,
        bybit_age,
        size,
        now_ns,
    );
}

/// Prices of a coin with the books of the two exchanges swapped.
pub open spec fn swapped(p: CoinPrices) -> CoinPrices {
    CoinPrices { binance_book: p.bybit_book, bybit_book: p.binance_book, ..p }
}

/// Swapping the books of the two exchanges swaps the two directions and nothing else,
/// of entries as of exits.
pub proof fn law_directions_mirror(p: CoinPrices)
    ensures
        tops_of(p) is Some <==> tops_of(swapped(p)) is Some,
        tops_of(p) is Some ==> {
            let t = tops_of(p)->Some_0;
            let m = tops_of(swapped(p))->Some_0;
            &&& entry_crossing(t, Exchange::Binance) == entry_crossing(m, Exchange::Bybit)
            &&& entry_crossing(t, Exchange::Bybit) == entry_crossing(m, Exchange::Binance)
            &&& exit_crossing(t, Exchange::Binance) == exit_crossing(m, Exchange::Bybit)
            &&& exit_crossing(t, Exchange::Bybit) == exit_crossing(m, Exchange::Binance)
        },
{
}

/// What a record tells of the statistics: the median, the volatility and the velocity as
/// they are now; both thresholds while trading is permitted, the entry one above the exit
/// one as the levels are, and none otherwise; and how many volatilities the spread lies
/// above the median, rounded down.
pub proof fn law_record_tells_statistics(
    r: OpportunityRecord,
    coin: Seq<char>,
    direction: Seq<char>,
    raw_bid: u64,
    x: Crossing,
    ev: Evaluated,
    now: int,
)
    requires
        now >= 0,
        tells_evaluated(r, coin, direction, raw_bid, x, ev, now),
    ensures
        r.symbol@ == coin,
        r.direction@ == direction,
        r.timestamp_ns == now,
        r.baseline_spread_pct == ev.state.median,
        r.spread_volatility_pct == ev.state.volatility(),
        r.spread_velocity == ev.state.velocity,
        ev.state.permit(now / 1_000_000) is Ok ==> {
            &&& r.dynamic_entry_threshold_pct == ev.state.entry_level()
            &&& r.dynamic_exit_threshold_pct == ev.state.exit_level()
        },
        ev.state.permit(now / 1_000_000) is Err ==> {
            &&& r.dynamic_entry_threshold_pct == 0
            &&& r.dynamic_exit_threshold_pct == 0
        },
        r.spread_volatility_pct > 0 ==> is_quotient(
            r.z_score as int,
            (r.effective_spread_pct - r.baseline_spread_pct) * 100_000_000,
            r.spread_volatility_pct as int,
        ),
        r.spread_volatility_pct <= 0 ==> r.z_score == 0,
        r.buy_fee_pct == 0,
        r.sell_fee_pct == 0,
        r.expected_slippage_pct == 0,
        r.data_fresh_ok,
        r.liquidity_ok <==> r.reject_reason != Some(RejectionReason::INSUFFICIENT_LIQUIDITY),
        r.exit_trigger_condition is None,
{
    if ev.state.volatility() > 0 {
        lemma_quotient((ev.spread - ev.state.median) * 100_000_000, ev.state.volatility());
    }
}

/// A candidate carries the velocity and the entry threshold that its statistics had when
/// it was found, and the moment of that in milliseconds.
pub proof fn law_candidate_carries_statistics(
    c: OpenCandidate,
    coin: Seq<char>,
    p: CoinPrices,
    t: Tops,
    buy_on: Exchange,
    ev: Evaluated,
    now_ns: i64,
)
    requires
        now_ns >= 0,
        is_candidate(c, coin, p, t, buy_on, ev, now_ns),
    ensures
        c.coin@ == coin,
        c.spread == ev.spread,
        c.spread_velocity == ev.state.velocity,
        ev.state.permit(now_ns as int / 1_000_000) is Ok ==> c.dynamic_entry
            == ev.state.entry_level(),
        ev.state.permit(now_ns as int / 1_000_000) is Err ==> c.dynamic_entry == 0,
        c.latency.opportunity_detected_ms is Some,
        is_quotient(
            c.latency.opportunity_detected_ms->Some_0 as int,
            now_ns as int,
            1_000_000,
        ),
        c.latency.order_send_ms is None,
        c.latency.ws_fill_ms is None,
{
}

} // verus!
