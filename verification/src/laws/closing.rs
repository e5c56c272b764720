//! The decision to close a position, and what is ordered for it.
use super::amounts::{
    is_percentage, is_quotient, law_percentage, lemma_quotient, lemma_quotient_unique,
};
use super::opening::{first_at_or_above, last_at_or_below, lemma_moved, tick_on};
use super::scanning::law_measured_spread;
use crate::config::{DynamicSpreadConfig, TradingParams};
use crate::exchanges::exchange_info::law_round_down;
use crate::live_trading::close::{ClosePlan, CloseRefusal};
use crate::live_trading::scan::{
    crossing_spread, exit_crossing, tops_of, Scanner,
};
use crate::live_trading::{heuristic_step, lemma_place_of, LiveTradingEngine, OpenPosition};
use crate::price_store::{CoinPrices, Exchange, OrderBookEntry};
use vstd::prelude::*;

verus! {

/// The other of two exchanges.
pub open spec fn other(e: Exchange) -> Exchange {
    if e == Exchange::Binance {
        Exchange::Bybit
    } else {
        Exchange::Binance
    }
}

/// The two books of a position: that of the exchange that was bought on, and that of
/// the other.
pub open spec fn long_and_short(p: OpenPosition, prices: CoinPrices) -> (
    OrderBookEntry,
    OrderBookEntry,
) {
    if p.buy_exchange == Exchange::Binance {
        (prices.binance_book, prices.bybit_book)
    } else {
        (prices.bybit_book, prices.binance_book)
    }
}

/// A percentage lies below a threshold exactly where the prices are less far apart.
proof fn lemma_below(p: int, limit: int, from: int, to: int)
    requires
        from > 0,
        is_percentage(p, from, to),
    ensures
        p < limit <==> (to - from) * 10_000_000_000 < limit * from,
        p <= limit <==> (to - from) * 10_000_000_000 < (limit + 1) * from,
{
    let d = (to - from) * 10_000_000_000;
    assert(p < limit <==> d < limit * from) by (nonlinear_arith)
        requires
            from > 0,
            p * from <= d,
            d < (p + 1) * from,
    ;
    assert(p <= limit <==> d < (limit + 1) * from) by (nonlinear_arith)
        requires
            from > 0,
            p * from <= d,
            d < (p + 1) * from,
    ;
}

/// What a position is closed for. Its long leg would be sold at the best bid of the
/// exchange that it was bought on, its short leg bought back at the best ask of the
/// other: the percentage by which that ask lies above that bid must be below the exit
/// threshold, unless the position is overdue. The spread that is told is that of the
/// last prices of the two exchanges, and lies at most at the exit spread unless the
/// position is overdue. The position was held long enough.
pub proof fn law_close_is_called_for(
    sc: Scanner,
    p: OpenPosition,
    prices: CoinPrices,
    binance: Option<u64>,
    bybit: Option<u64>,
    near_funding: bool,
    params: TradingParams,
    now_ns: i64,
    config: DynamicSpreadConfig,
)
    requires
        p.buy_exchange != p.sell_exchange,
        now_ns >= 0,
        p.open_time_ns >= 0,
        sc.signal_of(
            p,
            prices,
            binance,
            bybit,
            near_funding,
            params,
            now_ns as int,
            config,
        ).close is Some,
    ensures
        ({
            let close = sc.signal_of(
                p,
                prices,
                binance,
                bybit,
                near_funding,
                params,
                now_ns as int,
                config,
            ).close->Some_0;
            let (long, short) = long_and_short(p, prices);
            let bid = long.best_bid->Some_0 as int;
            let ask = short.best_ask->Some_0 as int;
            let (bought, sold) = if p.buy_exchange == Exchange::Binance {
                (binance, bybit)
            } else {
                (bybit, binance)
            };
            let from = bought->Some_0 as int;
            let to = sold->Some_0 as int;
            let stats = if p.buy_exchange == Exchange::Binance {
                sc.from_binance
            } else {
                sc.from_bybit
            };
            let age_ms = now_ns / 1_000_000 - p.open_time_ns / 1_000_000;
            let n = (params.trade_size_usdt * 100_000_000) / bid;
            let state = stats.state_of(p.coin@);
            &&& p.leg_left is None
            &&& bought is Some && from > 0 && sold is Some && to > 0
            &&& long.best_bid is Some && bid > 0 && short.best_ask is Some && ask > 0
            &&& stats.knows(p.coin@)
            &&& is_percentage(close.0 as int, from, to)
            &&& params.min_hold_secs > 0 ==> now_ns - p.open_time_ns >= params.min_hold_secs
                * 1_000_000_000
            &&& n > 0
            &&& long.best_bid_qty is Some && n <= long.best_bid_qty->Some_0
            &&& short.best_ask_qty is Some && n <= short.best_ask_qty->Some_0
            &&& age_ms <= config.max_arbitrage_hold_time_ms ==> (to - from) * 10_000_000_000 < (
            params.exit_spread_threshold + 1) * from
            &&& age_ms <= state.config.max_arbitrage_hold_time_ms ==> {
                &&& {
                    ||| (ask - bid) * 10_000_000_000 < state.exit_level() * bid
                    ||| (ask - bid) * 10_000_000_000 < state.config.minimum_exit_threshold_pct * bid
                }
                &&& state.permit(now_ns as int / 1_000_000) is Ok
            }
        }),
{
    let (long, short) = long_and_short(p, prices);
    let bid = long.best_bid->Some_0 as int;
    let ask = short.best_ask->Some_0 as int;
    let x = exit_crossing(tops_of(prices)->Some_0, p.buy_exchange);
    let size = params.trade_size_usdt as int;
    let n = (size * 100_000_000) / bid;
    lemma_quotient(size * 100_000_000, bid);
    law_measured_spread(x, size, config, n);
    let s = crossing_spread(x, size, config)->Ok_0;
    let state = sc.table(p.buy_exchange).state_of(p.coin@);
    lemma_below(s, state.exit_level(), bid, ask);
    lemma_below(s, state.config.minimum_exit_threshold_pct as int, bid, ask);
    let (from, to) = if p.buy_exchange == Exchange::Binance {
        (binance->Some_0, bybit->Some_0)
    } else {
        (bybit->Some_0, binance->Some_0)
    };
    law_percentage(from as int, to as int, to as int);
    let q = crate::fixed::pct_change_spec(from as int, to as int);
    crate::fixed::lemma_quotient_fits((to - from) * 10_000_000_000, from as int);
    lemma_below(q, params.exit_spread_threshold as int, from as int, to as int);
    if params.min_hold_secs > 0 {
        lemma_held(p.open_time_ns as int, now_ns as int, params.min_hold_secs as int);
    }
}

/// When a position is closed: all prices are known, the best levels hold the trade size,
/// it was held long enough, its last prices have converged or it is overdue, and the ask
/// at which its short leg is bought back lies less than the exit threshold above the bid
/// at which its long leg is sold, trading being permitted.
pub proof fn law_converged_position_closes(
    sc: Scanner,
    p: OpenPosition,
    prices: CoinPrices,
    binance: u64,
    bybit: u64,
    near_funding: bool,
    params: TradingParams,
    now_ns: i64,
    config: DynamicSpreadConfig,
)
    requires
        p.buy_exchange != p.sell_exchange,
        p.leg_left is None,
        0 <= p.open_time_ns <= now_ns,
        now_ns - p.open_time_ns >= params.min_hold_secs * 1_000_000_000,
        binance > 0,
        bybit > 0,
        tops_of(prices) is Some,
        config.max_depth_levels > 0,
        config.max_slippage_pct >= 0,
        ({
            let (long, short) = long_and_short(p, prices);
            let bid = long.best_bid->Some_0 as int;
            let ask = short.best_ask->Some_0 as int;
            let (from, to) = if p.buy_exchange == Exchange::Binance {
                (binance as int, bybit as int)
            } else {
                (bybit as int, binance as int)
            };
            let stats = if p.buy_exchange == Exchange::Binance {
                sc.from_binance
            } else {
                sc.from_bybit
            };
            let state = stats.state_of(p.coin@);
            let n = (params.trade_size_usdt * 100_000_000) / bid;
            &&& stats.knows(p.coin@)
            &&& n > 0
            &&& long.best_bid_qty is Some && n <= long.best_bid_qty->Some_0
            &&& short.best_ask_qty is Some && n <= short.best_ask_qty->Some_0
            &&& {
                ||| (to - from) * 10_000_000_000 < (params.exit_spread_threshold + 1) * from
                ||| now_ns as int / 1_000_000 - p.open_time_ns as int / 1_000_000
                    > config.max_arbitrage_hold_time_ms
            }
            &&& {
                ||| now_ns as int / 1_000_000 - p.open_time_ns as int / 1_000_000
                    > state.config.max_arbitrage_hold_time_ms
                ||| state.permit(now_ns as int / 1_000_000) is Ok && (ask - bid) * 10_000_000_000
                    < state.exit_level() * bid
            }
        }),
    ensures
        sc.signal_of(
            p,
            prices,
            Some(binance),
            Some(bybit),
            near_funding,
            params,
            now_ns as int,
            config,
        ).close is Some,
{
    let (long, short) = long_and_short(p, prices);
    let bid = long.best_bid->Some_0 as int;
    let ask = short.best_ask->Some_0 as int;
    let x = exit_crossing(tops_of(prices)->Some_0, p.buy_exchange);
    let size = params.trade_size_usdt as int;
    let n = (size * 100_000_000) / bid;
    lemma_quotient(size * 100_000_000, bid);
    law_measured_spread(x, size, config, n);
    let s = crossing_spread(x, size, config)->Ok_0;
    let state = sc.table(p.buy_exchange).state_of(p.coin@);
    lemma_below(s, state.exit_level(), bid, ask);
    let (from, to) = if p.buy_exchange == Exchange::Binance {
        (binance as int, bybit as int)
    } else {
        (bybit as int, binance as int)
    };
    law_percentage(from, to, to);
    let q = crate::fixed::pct_change_spec(from, to);
    lemma_below(q, params.exit_spread_threshold as int, from, to);
}

/// A close forced by funding: near its funding time, and only then, a position whose
/// coin has a price on both exchanges is to be closed, unless it is left for review.
pub proof fn law_funding_pause_closes(
    sc: Scanner,
    p: OpenPosition,
    prices: CoinPrices,
    binance: Option<u64>,
    bybit: Option<u64>,
    near_funding: bool,
    params: TradingParams,
    now_ns: int,
    config: DynamicSpreadConfig,
)
    requires
        p.buy_exchange != p.sell_exchange,
    ensures
        ({
            let r = sc.signal_of(
                p,
                prices,
                binance,
                bybit,
                near_funding,
                params,
                now_ns,
                config,
            );
            &&& r.force <==> near_funding && binance is Some && bybit is Some && p.leg_left is None
            &&& p.leg_left is Some ==> r.close is None
        }),
{
}

/// An exit costs what an entry gains: where the books are not crossed, the exit spread
/// of a position is never below the entry spread of its direction.
pub proof fn law_exit_above_entry(prices: CoinPrices, bought_on: Exchange, q: int, s: int)
    requires
        tops_of(prices) is Some,
        prices.binance_book.best_bid->Some_0 <= prices.binance_book.best_ask->Some_0,
        prices.bybit_book.best_bid->Some_0 <= prices.bybit_book.best_ask->Some_0,
        ({
            let t = tops_of(prices)->Some_0;
            let entry = crate::live_trading::scan::entry_crossing(t, bought_on);
            let exit = exit_crossing(t, bought_on);
            &&& is_percentage(q, entry.buy_price as int, entry.sell_price as int)
            &&& is_percentage(s, exit.buy_price as int, exit.sell_price as int)
        }),
    ensures
        q <= s,
{
    let t = tops_of(prices)->Some_0;
    let entry = crate::live_trading::scan::entry_crossing(t, bought_on);
    let exit = exit_crossing(t, bought_on);
    let a = entry.buy_price as int;
    let b = entry.sell_price as int;
    let c = exit.buy_price as int;
    let d = exit.sell_price as int;
    assert(q <= s) by (nonlinear_arith)
        requires
            0 < c <= a,
            0 < b <= d,
            q * a <= (b - a) * 10_000_000_000,
            (d - c) * 10_000_000_000 < (s + 1) * c,
    ;
}

/// A position with its two exchanges swapped.
pub open spec fn turned(p: OpenPosition) -> OpenPosition {
    OpenPosition {
        buy_exchange: other(p.buy_exchange),
        sell_exchange: other(p.sell_exchange),
        ..p
    }
}

/// No exchange is favoured: swapping the two in books, last prices, statistics and
/// position leaves the signal as it is.
pub proof fn law_signal_mirrors(
    sc: Scanner,
    p: OpenPosition,
    prices: CoinPrices,
    binance: Option<u64>,
    bybit: Option<u64>,
    near_funding: bool,
    params: TradingParams,
    now_ns: int,
    config: DynamicSpreadConfig,
)
    ensures
        sc.signal_of(p, prices, binance, bybit, near_funding, params, now_ns, config) == (Scanner {
            from_binance: sc.from_bybit,
            from_bybit: sc.from_binance,
        }).signal_of(
            turned(p),
            super::scanning::swapped(prices),
            bybit,
            binance,
            near_funding,
            params,
            now_ns,
            config,
        ),
{
    super::scanning::law_directions_mirror(prices);
}

/// Whole seconds reach a number where the time does.
proof fn lemma_held(open: int, now: int, secs: int)
    requires
        crate::clock::seconds_between(open, now) >= secs,
        secs > 0,
    ensures
        now - open >= secs * 1_000_000_000,
{
}

/// The price that the long leg of a position is sold from: the best bid of the exchange
/// that it was bought on, its entry price where there is none.
pub open spec fn selling_from(p: OpenPosition, fresh: Option<CoinPrices>) -> int {
    if fresh is None {
        p.entry_buy_price as int
    } else {
        let b = if p.buy_exchange == Exchange::Binance {
            fresh->Some_0.binance_book.best_bid
        } else {
            fresh->Some_0.bybit_book.best_bid
        };
        if b is Some {
            b->Some_0 as int
        } else {
            p.entry_buy_price as int
        }
    }
}

/// The price that the short leg of a position is bought back from: the best ask of the
/// exchange that it was sold on, its entry price where there is none.
pub open spec fn buying_from(p: OpenPosition, fresh: Option<CoinPrices>) -> int {
    if fresh is None {
        p.entry_sell_price as int
    } else {
        let a = if p.sell_exchange == Exchange::Binance {
            fresh->Some_0.binance_book.best_ask
        } else {
            fresh->Some_0.bybit_book.best_ask
        };
        if a is Some {
            a->Some_0 as int
        } else {
            p.entry_sell_price as int
        }
    }
}

/// What is ordered to close a position. The long leg is sold where it was bought, the
/// short leg bought back where it was sold, each for the whole quantity it holds in steps
/// that its price allows. The sell goes down to half a percent below the bid, the buy up
/// to half a percent above the ask, each on a tick of its exchange.
pub proof fn law_close_orders(
    e: LiveTradingEngine,
    coin: Seq<char>,
    fresh: Option<CoinPrices>,
    now_ns: i64,
    k: int,
    least: int,
    most: int,
)
    requires
        e.wf(),
        0 <= k < e.open_positions@.len(),
        e.open_positions@[k].coin@ == coin,
        e.close_outcome(coin, fresh, now_ns as int) is Ok,
        selling_from(e.open_positions@[k], fresh) <= 1_000_000_000_000_000_000,
        buying_from(e.open_positions@[k], fresh) <= 1_000_000_000_000_000_000,
        is_quotient(
            least,
            selling_from(e.open_positions@[k], fresh) * 9_950_000_000,
            10_000_000_000,
        ),
        is_quotient(
            most,
            buying_from(e.open_positions@[k], fresh) * 10_050_000_000,
            10_000_000_000,
        ),
    ensures
        ({
            let p = e.open_positions@[k];
            let plan = e.close_outcome(coin, fresh, now_ns as int)->Ok_0;
            let symbol = coin + "USDT"@;
            let s = heuristic_step(p.entry_buy_price as int);
            let b = heuristic_step(p.entry_sell_price as int);
            &&& p.leg_left is None
            &&& plan.sell_on == p.buy_exchange
            &&& plan.buy_on == p.sell_exchange
            &&& plan.sell_on != plan.buy_on
            &&& 0 < plan.sell_qty <= p.buy_filled_qty < plan.sell_qty + s
            &&& 0 < plan.buy_qty <= p.sell_filled_qty < plan.buy_qty + b
            &&& plan.sell_qty as int % s == 0
            &&& plan.buy_qty as int % b == 0
            &&& last_at_or_below(
                plan.worst_sell_price as int,
                least,
                tick_on(e, p.buy_exchange, symbol),
            )
            &&& first_at_or_above(
                plan.worst_buy_price as int,
                most,
                tick_on(e, p.sell_exchange, symbol),
            )
            &&& now_ns >= p.open_time_ns ==> is_quotient(
                plan.hold_secs as int,
                now_ns - p.open_time_ns,
                1_000_000_000,
            )
        }),
{
    let p = e.open_positions@[k];
    assert(p.wf());
    super::booking::lemma_found(e.open_positions@, coin, k);
    law_round_down(p.buy_filled_qty as int, heuristic_step(p.entry_buy_price as int));
    law_round_down(p.sell_filled_qty as int, heuristic_step(p.entry_sell_price as int));
    let bid = selling_from(p, fresh);
    let ask = buying_from(p, fresh);
    let down = crate::live_trading::open::moved_price(bid, -50_000_000);
    let up = crate::live_trading::open::moved_price(ask, 50_000_000);
    lemma_moved(bid, -50_000_000);
    lemma_moved(ask, 50_000_000);
    lemma_quotient_unique(least, down, bid * 9_950_000_000, 10_000_000_000);
    lemma_quotient_unique(most, up, ask * 10_050_000_000, 10_000_000_000);
    let symbol = crate::live_trading::open::symbol_of(coin);
    let t = tick_on(e, p.buy_exchange, symbol);
    let u = tick_on(e, p.sell_exchange, symbol);
    if t > 0 {
        law_round_down(down, t);
    }
    if u > 0 {
        crate::exchanges::exchange_info::law_round_up(up, u);
    }
    if now_ns >= p.open_time_ns {
        lemma_quotient(now_ns - p.open_time_ns, 1_000_000_000);
    }
}

/// When nothing can be ordered: there is no position on the coin, one leg is closed
/// already, a leg holds less than one step, or both legs are on the same exchange.
pub proof fn law_close_refusals(
    e: LiveTradingEngine,
    coin: Seq<char>,
    fresh: Option<CoinPrices>,
    now_ns: i64,
)
    requires
        e.wf(),
    ensures
        ({
            let r = e.close_outcome(coin, fresh, now_ns as int);
            let none = forall|i: int|
                0 <= i < e.open_positions@.len() ==> (#[trigger] e.open_positions@[i]).coin@
                    != coin;
            &&& r == Err::<ClosePlan, CloseRefusal>(CloseRefusal::NoPosition) <==> none
            &&& forall|k: int|
                0 <= k < e.open_positions@.len() && (#[trigger] e.open_positions@[k]).coin@ == coin
                    ==> {
                    let p = e.open_positions@[k];
                    let small = p.buy_filled_qty < heuristic_step(p.entry_buy_price as int)
                        || p.sell_filled_qty < heuristic_step(p.entry_sell_price as int);
                    &&& p.leg_left is Some ==> r == Err::<ClosePlan, CloseRefusal>(
                        CloseRefusal::UnderReview,
                    )
                    &&& p.leg_left is None && small ==> r == Err::<ClosePlan, CloseRefusal>(
                        CloseRefusal::ZeroQuantity,
                    )
                    &&& p.leg_left is None && !small ==> (r is Ok <==> p.buy_exchange
                        != p.sell_exchange)
                }
        }),
{
    lemma_place_of(e.open_positions@, coin, 0);
    assert forall|k: int|
        0 <= k < e.open_positions@.len() && (#[trigger] e.open_positions@[k]).coin@
            == coin implies {
        let r = e.close_outcome(coin, fresh, now_ns as int);
        let p = e.open_positions@[k];
        let small = p.buy_filled_qty < heuristic_step(p.entry_buy_price as int)
            || p.sell_filled_qty < heuristic_step(p.entry_sell_price as int);
        &&& p.leg_left is Some ==> r == Err::<ClosePlan, CloseRefusal>(CloseRefusal::UnderReview)
        &&& p.leg_left is None && small ==> r == Err::<ClosePlan, CloseRefusal>(
            CloseRefusal::ZeroQuantity,
        )
        &&& p.leg_left is None && !small ==> (r is Ok <==> p.buy_exchange != p.sell_exchange)
    } by {
        super::booking::lemma_found(e.open_positions@, coin, k);
        let p = e.open_positions@[k];
        lemma_whole_steps(p.buy_filled_qty as int, heuristic_step(p.entry_buy_price as int));
        lemma_whole_steps(p.sell_filled_qty as int, heuristic_step(p.entry_sell_price as int));
    }
}

/// A quantity below one step rounds to nothing, and only such a one.
proof fn lemma_whole_steps(v: int, step: int)
    requires
        0 <= v <= u64::MAX,
        step > 0,
    ensures
        crate::exchanges::exchange_info::round_down_to(v, step) as u64
            == crate::exchanges::exchange_info::round_down_to(v, step),
        crate::exchanges::exchange_info::round_down_to(v, step) == 0 <==> v < step,
{
    law_round_down(v, step);
    let r = crate::exchanges::exchange_info::round_down_to(v, step);
    if v < step {
        assert(v / step == 0) by (nonlinear_arith)
            requires
                0 <= v < step,
        ;
    }
}

} // verus!
