//! The decision to open a position.
use super::amounts::{is_percentage, is_quotient, law_percentage, lemma_quotient};
use crate::exchanges::exchange_info::{law_round_down, SymbolInfo};
use crate::live_trading::open::{OpenCandidate, OpenContext, OpenPlan, OpenRefusal};
use crate::live_trading::{heuristic_step, lemma_place_of, LiveTradingEngine};
use crate::price_store::Exchange;
use vstd::prelude::*;

verus! {

/// The last look: where no fresh prices stand against a trade, fresh prices decide on
/// it. The ask is that of the exchange that is bought on, the bid that of the exchange
/// that is sold on, whichever they are. The trade goes out exactly where one of the two
/// is not known, or where both are positive and the bid lies at least the entry
/// threshold above the ask.
pub proof fn law_last_look(e: LiveTradingEngine, c: OpenCandidate, x: OpenContext)
    requires
        x.fresh is Some,
        e.open_outcome(c, OpenContext { fresh: None, ..x }) is Ok,
    ensures
        ({
            let blind = e.open_outcome(c, OpenContext { fresh: None, ..x })->Ok_0;
            let r = e.open_outcome(c, x);
            let books = x.fresh->Some_0;
            let (ask, bid) = match c.buy_ex {
                Exchange::Binance => (books.binance_book.best_ask, books.bybit_book.best_bid),
                Exchange::Bybit => (books.bybit_book.best_ask, books.binance_book.best_bid),
            };
            let least = e.params.entry_spread_threshold as int;
            &&& c.buy_ex != c.sell_ex
            &&& blind.pre_flight is None
            &&& ask is None || bid is None ==> r == Ok::<OpenPlan, OpenRefusal>(blind)
            &&& ask is Some && bid is Some ==> {
                let a = ask->Some_0 as int;
                let b = bid->Some_0 as int;
                &&& r is Ok <==> {
                    &&& 0 < a < b
                    &&& (b - a) * 10_000_000_000 >= least * a
                }
                &&& r is Ok ==> {
                    let plan = r->Ok_0;
                    &&& plan == (OpenPlan { pre_flight: plan.pre_flight, ..blind })
                    &&& plan.pre_flight is Some
                    &&& plan.pre_flight->Some_0.ask == a
                    &&& plan.pre_flight->Some_0.bid == b
                    &&& is_percentage(plan.pre_flight->Some_0.spread_pct as int, a, b)
                }
                &&& r is Err ==> match r->Err_0 {
                    OpenRefusal::PreFlightInvalid { ask: seen, bid: got } => seen == a && got == b
                        && (a == 0 || b == 0 || a >= b),
                    OpenRefusal::PreFlightCollapsed { quote } => quote.ask == a && quote.bid == b
                        && 0 < a < b && is_percentage(quote.spread_pct as int, a, b),
                    _ => false,
                }
            }
        }),
{
    let books = x.fresh->Some_0;
    let (ask, bid) = match c.buy_ex {
        Exchange::Binance => (books.binance_book.best_ask, books.bybit_book.best_bid),
        Exchange::Bybit => (books.bybit_book.best_ask, books.binance_book.best_bid),
    };
    if ask is Some && bid is Some {
        let a = ask->Some_0 as int;
        let b = bid->Some_0 as int;
        if a > 0 {
            lemma_spread_fits(ask->Some_0, bid->Some_0);
            lemma_at_least(e.params.entry_spread_threshold as int, a, b);
        }
    }
}

/// Where the fresh books are those of the candidate, the last look changes nothing: it
/// sees the quotes on which the trade was decided.
pub proof fn law_steady_books_pass(e: LiveTradingEngine, c: OpenCandidate, x: OpenContext)
    requires
        x.fresh is Some,
        c.buy_ex == Exchange::Binance ==> x.fresh->Some_0.binance_book == c.buy_book
            && x.fresh->Some_0.bybit_book == c.sell_book,
        c.buy_ex == Exchange::Bybit ==> x.fresh->Some_0.bybit_book == c.buy_book
            && x.fresh->Some_0.binance_book == c.sell_book,
        e.open_outcome(c, OpenContext { fresh: None, ..x }) is Ok,
    ensures
        e.open_outcome(c, x) is Ok,
        e.open_outcome(c, x)->Ok_0.pre_flight == Some(e.open_outcome(c, x)->Ok_0.quote),
        Some(e.open_outcome(c, x)->Ok_0.quote.ask) == c.buy_book.best_ask,
        Some(e.open_outcome(c, x)->Ok_0.quote.bid) == c.sell_book.best_bid,
{
}

/// A percentage between two prices is a machine integer.
proof fn lemma_spread_fits(ask: u64, bid: u64)
    requires
        ask > 0,
    ensures
        crate::fixed::pct_change_spec(ask as int, bid as int) as i128
            == crate::fixed::pct_change_spec(ask as int, bid as int),
        is_percentage(
            crate::fixed::pct_change_spec(ask as int, bid as int),
            ask as int,
            bid as int,
        ),
{
    let a = ask as int;
    let d = (bid - ask) * 10_000_000_000;
    law_percentage(a, bid as int, bid as int);
    crate::fixed::lemma_quotient_fits(d, a);
}

/// A percentage reaches a threshold exactly where the prices are that far apart.
proof fn lemma_at_least(least: int, a: int, b: int)
    requires
        a > 0,
    ensures
        crate::fixed::pct_change_spec(a, b) >= least <==> (b - a) * 10_000_000_000 >= least * a,
{
    let d = (b - a) * 10_000_000_000;
    let q = d / a;
    lemma_quotient(d, a);
    assert(q >= least <==> d >= least * a) by (nonlinear_arith)
        requires
            a > 0,
            q * a <= d,
            d < (q + 1) * a,
    ;
}

/// The balance that the engine knows on an exchange.
pub open spec fn funds(e: LiveTradingEngine, exchange: Exchange) -> int {
    if exchange == Exchange::Binance {
        e.binance_balance as int
    } else {
        e.bybit_balance as int
    }
}

/// What an exchange states about a symbol.
pub open spec fn stated(e: LiveTradingEngine, exchange: Exchange, symbol: Seq<char>) -> Option<
    SymbolInfo,
> {
    if exchange == Exchange::Binance {
        if e.exchange_info.binance@.contains_key(symbol) {
            Some(e.exchange_info.binance@[symbol])
        } else {
            None
        }
    } else {
        if e.exchange_info.bybit@.contains_key(symbol) {
            Some(e.exchange_info.bybit@[symbol])
        } else {
            None
        }
    }
}

/// The step of quantities on an exchange, estimated from the price where it is not
/// stated.
pub open spec fn step_on(
    e: LiveTradingEngine,
    exchange: Exchange,
    symbol: Seq<char>,
    price: int,
) -> int {
    match stated(e, exchange, symbol) {
        Some(si) => si.step_size as int,
        None => heuristic_step(price),
    }
}

/// The state that lets a position be opened: the coin has none, the engine is not
/// halted, there is room, the cooldown of the coin is over, its spread is at least the
/// entry threshold and at most ten percent, and it is not funded hourly nor within five
/// minutes of a funding time.
pub proof fn law_opened_when_allowed(e: LiveTradingEngine, c: OpenCandidate, x: OpenContext)
    requires
        e.open_outcome(c, x) is Ok,
        x.time.wf(),
    ensures
        forall|i: int|
            0 <= i < e.open_positions@.len() ==> (#[trigger] e.open_positions@[i]).coin@ != c.coin@,
        !e.emergency_halt,
        e.open_positions@.len() < e.params.max_open_positions,
        e.last_trade_time@.contains_key(c.coin@) && e.params.trade_cooldown_secs > 0 ==> x.now_ns
            - e.last_trade_time@[c.coin@] >= e.params.trade_cooldown_secs * 1_000_000_000,
        e.params.entry_spread_threshold <= c.spread <= 1_000_000_000,
        x.funding_hours >= 2,
        ({
            let interval = x.funding_hours * 60;
            let since = (x.time.hour * 60 + x.time.minute) % interval;
            5 < since < interval - 5
        }),
        c.buy_ex != c.sell_ex,
{
    lemma_place_of(e.open_positions@, c.coin@, 0);
}

/// What an opened trade rests on: the best ask of the book that is bought from and the
/// best bid of the book that is sold to, more apart than the fees of all four orders, the
/// exit spread and a tenth of a percent.
pub proof fn law_opened_trade_pays(e: LiveTradingEngine, c: OpenCandidate, x: OpenContext)
    requires
        e.open_outcome(c, x) is Ok,
    ensures
        ({
            let q = e.open_outcome(c, x)->Ok_0.quote;
            &&& c.buy_book.best_ask == Some(q.ask)
            &&& c.sell_book.best_bid == Some(q.bid)
            &&& 0 < q.ask < q.bid
            &&& is_percentage(q.spread_pct as int, q.ask as int, q.bid as int)
            &&& q.spread_pct >= e.params.entry_spread_threshold
            &&& q.spread_pct <= 1_000_000_000
            &&& q.spread_pct > 21_000_000 + e.params.exit_spread_threshold + 10_000_000
        }),
{
    let ask = c.buy_book.best_ask->Some_0;
    let bid = c.sell_book.best_bid->Some_0;
    lemma_spread_fits(ask, bid);
}

/// How much is traded: at most the target, ten times either balance and what either best
/// level offers, and at least five dollars; and as much as these allow. Both balances
/// cover it with one percent to spare.
pub proof fn law_trade_size_is_what_fits(e: LiveTradingEngine, c: OpenCandidate, x: OpenContext)
    requires
        e.open_outcome(c, x) is Ok,
        e.params.trade_size_usdt <= 1_000_000_000_000_000_000,
    ensures
        ({
            let plan = e.open_outcome(c, x)->Ok_0;
            let usdt = plan.usdt as int;
            let bought = plan.quote.ask * c.buy_book.best_ask_qty->Some_0;
            let sold = plan.quote.bid * c.sell_book.best_bid_qty->Some_0;
            let from = funds(e, c.buy_ex);
            let to = funds(e, c.sell_ex);
            &&& c.buy_book.best_ask_qty is Some && c.buy_book.best_ask_qty->Some_0 > 0
            &&& c.sell_book.best_bid_qty is Some && c.sell_book.best_bid_qty->Some_0 > 0
            &&& 500_000_000 <= usdt <= e.params.trade_size_usdt
            &&& usdt <= from * 10 && usdt <= to * 10
            &&& usdt * 100_000_000 <= bought && usdt * 100_000_000 <= sold
            &&& from >= 100_000_000 && to >= 100_000_000
            &&& from * 100 >= usdt * 101 && to * 100 >= usdt * 101
            &&& {
                ||| usdt == e.params.trade_size_usdt
                ||| usdt == from * 10
                ||| usdt == to * 10
                ||| bought < (usdt + 1) * 100_000_000
                ||| sold < (usdt + 1) * 100_000_000
            }
        }),
{
    let q = e.quote_for(c);
    lemma_quotient(q.ask * c.buy_book.best_ask_qty->Some_0, 100_000_000);
    lemma_quotient(q.bid * c.sell_book.best_bid_qty->Some_0, 100_000_000);
}

/// How many coins are traded: the same on both legs, no more than the trade size pays
/// for on either side, a multiple of the step of one of the exchanges and less than one
/// such step below what the size pays for, and worth at least five percent more than the
/// minimum notional of Binance.
pub proof fn law_quantity_is_what_the_size_buys(
    e: LiveTradingEngine,
    c: OpenCandidate,
    x: OpenContext,
)
    requires
        e.open_outcome(c, x) is Ok,
        e.exchange_info.wf(),
        e.params.trade_size_usdt <= 1_000_000_000_000_000_000,
    ensures
        ({
            let plan = e.open_outcome(c, x)->Ok_0;
            let symbol = c.coin@ + "USDT"@;
            let n = (plan.usdt * 100_000_000) / (plan.quote.bid as int);
            let one = step_on(e, Exchange::Binance, symbol, plan.quote.ask as int);
            let two = step_on(e, Exchange::Bybit, symbol, plan.quote.ask as int);
            let least = match stated(e, Exchange::Binance, symbol) {
                Some(si) => si.min_notional as int,
                None => 500_000_000,
            };
            &&& 0 < plan.quantity <= n
            &&& plan.quantity * plan.quote.ask <= plan.usdt * 100_000_000
            &&& plan.quantity * plan.quote.bid <= plan.usdt * 100_000_000
            &&& one > 0 ==> n - one < plan.quantity || (two > 0 && n - two < plan.quantity)
            &&& one > 0 && two > 0 ==> {
                ||| plan.quantity as int % one == 0 && n - one < plan.quantity
                ||| plan.quantity as int % two == 0 && n - two < plan.quantity
            }
            &&& plan.quantity * plan.quote.ask * 100 >= least * 105 * 100_000_000
            &&& plan.quantity * plan.quote.bid * 100 >= least * 105 * 100_000_000
        }),
{
    let size = e.size_for(c);
    let q = e.quote_for(c);
    let ask = q.ask as int;
    let bid = q.bid as int;
    let a = size * 100_000_000;
    let symbol = crate::live_trading::open::symbol_of(c.coin@);
    law_trade_size_is_what_fits(e, c, x);
    lemma_quotient(a, ask);
    lemma_quotient(a, bid);
    let by_ask = a / ask;
    let by_bid = a / bid;
    assert(by_bid <= by_ask) by (nonlinear_arith)
        requires
            0 < ask < bid,
            a >= 0,
            by_bid * bid <= a,
            a < (by_ask + 1) * ask,
            a < (by_bid + 1) * bid,
    ;
    assert(by_bid >= 0) by (nonlinear_arith)
        requires
            a >= 0,
            bid > 0,
            a < (by_bid + 1) * bid,
    ;
    let one = step_on(e, Exchange::Binance, symbol, ask);
    let two = step_on(e, Exchange::Bybit, symbol, ask);
    if one > 0 {
        law_round_down(by_bid, one);
    }
    if two > 0 {
        law_round_down(by_bid, two);
    }
    let n = e.quantity_of(c);
    assert(n * ask <= a && n * bid <= a) by (nonlinear_arith)
        requires
            0 <= n <= by_bid,
            0 < ask < bid,
            by_bid * bid <= a,
    ;
    assert(by_bid <= a) by (nonlinear_arith)
        requires
            by_bid * bid <= a,
            bid >= 1,
            by_bid >= 0,
    ;
    lemma_quantity_fits(e, c, x);
}

/// The quantity of a planned trade is a machine integer.
proof fn lemma_quantity_fits(e: LiveTradingEngine, c: OpenCandidate, x: OpenContext)
    requires
        e.open_outcome(c, x) is Ok,
        e.exchange_info.wf(),
        e.params.trade_size_usdt <= 1_000_000_000_000_000_000,
    ensures
        0 <= e.quantity_of(c) <= u64::MAX,
{
    let q = e.quote_for(c);
    let bid = q.bid as int;
    let size = e.size_for(c);
    let a = size * 100_000_000;
    law_trade_size_is_what_fits(e, c, x);
    lemma_quotient(a, bid);
    let offered = c.sell_book.best_bid_qty->Some_0 as int;
    let by_bid = a / bid;
    assert(by_bid <= offered) by (nonlinear_arith)
        requires
            by_bid * bid <= a,
            a <= bid * offered,
            bid > 0,
    ;
    let symbol = crate::live_trading::open::symbol_of(c.coin@);
    let raw = crate::fixed::min_of(a / (q.ask as int), by_bid);
    lemma_quotient(a, q.ask as int);
    assert(raw >= 0) by {
        assert(a / (q.ask as int) >= 0 && by_bid >= 0) by (nonlinear_arith)
            requires
                a >= 0,
                bid > 0,
                q.ask > 0,
                by_bid == a / bid,
        ;
    }
    let one = step_on(e, Exchange::Binance, symbol, q.ask as int);
    let two = step_on(e, Exchange::Bybit, symbol, q.ask as int);
    if one > 0 {
        law_round_down(raw, one);
    }
    if two > 0 {
        law_round_down(raw, two);
    }
}

/// The tick of prices on an exchange, zero where it is not stated.
pub open spec fn tick_on(e: LiveTradingEngine, exchange: Exchange, symbol: Seq<char>) -> int {
    match stated(e, exchange, symbol) {
        Some(si) => si.tick_size as int,
        None => 0,
    }
}

/// Whether a limit price is the first at or above a bound that fits the tick.
pub open spec fn first_at_or_above(price: int, bound: int, tick: int) -> bool {
    if tick > 0 {
        price % tick == 0 && price - tick < bound <= price
    } else {
        price == bound
    }
}

/// Whether a limit price is the last at or below a bound that fits the tick.
pub open spec fn last_at_or_below(price: int, bound: int, tick: int) -> bool {
    if tick > 0 {
        price % tick == 0 && price <= bound < price + tick
    } else {
        price == bound
    }
}

/// A price moved up or down by a percentage is bracketed by it.
pub proof fn lemma_moved(price: int, pct: int)
    ensures
        is_quotient(
            crate::live_trading::open::moved_price(price, pct),
            price * (10_000_000_000 + pct),
            10_000_000_000,
        ),
{
    lemma_quotient(price * (10_000_000_000 + pct), 10_000_000_000);
}

/// The limit prices of an opening trade: the buy may pay up to a slippage above the ask,
/// the sell must get at least a slippage below the bid, each on a tick of its exchange
/// that gives the order room. The slippage is 0.35% where the spread is above 1.2%, else
/// 0.2%.
pub proof fn law_opening_limits(
    e: LiveTradingEngine,
    c: OpenCandidate,
    x: OpenContext,
    most: int,
    least: int,
)
    requires
        e.open_outcome(c, x) is Ok,
        e.exchange_info.wf(),
        c.buy_book.best_ask is Some ==> c.buy_book.best_ask->Some_0 <= 1_000_000_000_000_000_000,
        c.sell_book.best_bid is Some ==> c.sell_book.best_bid->Some_0 <= 1_000_000_000_000_000_000,
        ({
            let slip: int = if c.spread > 120_000_000 {
                35_000_000
            } else {
                20_000_000
            };
            let q = e.open_outcome(c, x)->Ok_0.quote;
            &&& is_quotient(most, q.ask * (10_000_000_000 + slip), 10_000_000_000)
            &&& is_quotient(least, q.bid * (10_000_000_000 - slip), 10_000_000_000)
        }),
    ensures
        ({
            let plan = e.open_outcome(c, x)->Ok_0;
            let symbol = c.coin@ + "USDT"@;
            &&& first_at_or_above(
                plan.worst_buy_price as int,
                most,
                tick_on(e, c.buy_ex, symbol),
            )
            &&& last_at_or_below(
                plan.worst_sell_price as int,
                least,
                tick_on(e, c.sell_ex, symbol),
            )
        }),
{
    let slip: int = if c.spread > 120_000_000 {
        35_000_000
    } else {
        20_000_000
    };
    let q = e.quote_for(c);
    let ask = q.ask as int;
    let bid = q.bid as int;
    let up = crate::live_trading::open::moved_price(ask, slip);
    let down = crate::live_trading::open::moved_price(bid, -slip);
    lemma_moved(ask, slip);
    lemma_moved(bid, -slip);
    super::amounts::lemma_quotient_unique(most, up, ask * (10_000_000_000 + slip), 10_000_000_000);
    super::amounts::lemma_quotient_unique(
        least,
        down,
        bid * (10_000_000_000 - slip),
        10_000_000_000,
    );
    assert(0 <= up <= 2 * ask) by (nonlinear_arith)
        requires
            up * 10_000_000_000 <= ask * (10_000_000_000 + slip),
            ask * (10_000_000_000 + slip) < (up + 1) * 10_000_000_000,
            0 <= slip <= 10_000_000_000,
            ask >= 0,
    ;
    assert(0 <= down <= bid) by (nonlinear_arith)
        requires
            down * 10_000_000_000 <= bid * (10_000_000_000 - slip),
            bid * (10_000_000_000 - slip) < (down + 1) * 10_000_000_000,
            0 <= slip <= 10_000_000_000,
            bid >= 0,
    ;
    let symbol = crate::live_trading::open::symbol_of(c.coin@);
    let t = tick_on(e, c.buy_ex, symbol);
    let u = tick_on(e, c.sell_ex, symbol);
    if t > 0 {
        crate::exchanges::exchange_info::law_round_up(up, t);
    }
    if u > 0 {
        law_round_down(down, u);
    }
}

/// Whether two times lie less than a number of seconds apart, the second not being the
/// earlier one.
pub open spec fn within(earlier: int, later: int, secs: int) -> bool {
    later - earlier < secs * 1_000_000_000
}

/// Every refusal has its cause: what is told of a trade that is not opened is true of it.
pub proof fn law_refusals_have_causes(e: LiveTradingEngine, c: OpenCandidate, x: OpenContext)
    requires
        e.open_outcome(c, x) is Err,
        x.time.wf(),
        e.params.wf(),
    ensures
        ({
            let ask = c.buy_book.best_ask;
            let bid = c.sell_book.best_bid;
            let from = funds(e, c.buy_ex);
            let to = funds(e, c.sell_ex);
            match e.open_outcome(c, x)->Err_0 {
                OpenRefusal::AlreadyOpen => exists|i: int|
                    0 <= i < e.open_positions@.len() && (#[trigger] e.open_positions@[i]).coin@
                        == c.coin@,
                OpenRefusal::EmergencyHalt => e.emergency_halt,
                OpenRefusal::Cooldown { remaining_secs } => {
                    &&& e.last_trade_time@.contains_key(c.coin@)
                    &&& within(
                        e.last_trade_time@[c.coin@] as int,
                        x.now_ns as int,
                        e.params.trade_cooldown_secs as int,
                    )
                    &&& x.now_ns >= e.last_trade_time@[c.coin@] ==> is_quotient(
                        e.params.trade_cooldown_secs - remaining_secs,
                        x.now_ns - e.last_trade_time@[c.coin@],
                        1_000_000_000,
                    )
                },
                OpenRefusal::SpreadOutOfRange => c.spread < e.params.entry_spread_threshold
                    || c.spread > 1_000_000_000,
                OpenRefusal::MaxPositions { open } => open == e.open_positions@.len() && open
                    >= e.params.max_open_positions,
                OpenRefusal::OneHourFunding { hours } => hours == x.funding_hours && hours <= 1,
                OpenRefusal::NearFunding { seconds } => {
                    let interval = x.funding_hours * 60;
                    let since = (x.time.hour * 60 + x.time.minute) % interval;
                    &&& since <= 5 || interval - since <= 5
                    &&& 0 < seconds <= x.funding_hours * 3600
                    &&& (x.time.hour * 3600 + x.time.minute * 60 + x.time.second + seconds) % (
                    x.funding_hours * 3600) == 0
                },
                OpenRefusal::NoAsk => ask is None || ask->Some_0 == 0,
                OpenRefusal::NoBid => bid is None || bid->Some_0 == 0,
                OpenRefusal::Crossed { ask: a, bid: b, spread_pct } => ask == Some(a) && bid
                    == Some(b) && a >= b,
                OpenRefusal::BookSpreadBelowMin { quote } => ask == Some(quote.ask) && bid == Some(
                    quote.bid,
                ) && quote.spread_pct < e.params.entry_spread_threshold,
                OpenRefusal::BookSpreadTooHigh { quote } => ask == Some(quote.ask) && bid == Some(
                    quote.bid,
                ) && quote.spread_pct > 1_000_000_000,
                OpenRefusal::NotProfitable { quote, required_pct } => ask == Some(quote.ask) && bid
                    == Some(quote.bid) && quote.spread_pct <= required_pct && (c.buy_ex
                    != c.sell_ex ==> required_pct == 31_000_000 + e.params.exit_spread_threshold),
                OpenRefusal::InsufficientBalance { quote } => {
                    ||| from < 100_000_000
                    ||| to < 100_000_000
                    ||| from * 10 < 500_000_000
                    ||| to * 10 < 500_000_000
                    ||| e.params.trade_size_usdt < 500_000_000
                },
                OpenRefusal::NoAskQty { quote } => c.buy_book.best_ask_qty is None
                    || c.buy_book.best_ask_qty->Some_0 == 0,
                OpenRefusal::NoBidQty { quote } => c.sell_book.best_bid_qty is None
                    || c.sell_book.best_bid_qty->Some_0 == 0,
                OpenRefusal::LowLiquidity { quote, usdt, buy_usdt, sell_usdt } => {
                    ||| quote.ask * c.buy_book.best_ask_qty->Some_0 < 500_000_000 * 100_000_000
                    ||| quote.bid * c.sell_book.best_bid_qty->Some_0 < 500_000_000 * 100_000_000
                },
                OpenRefusal::MarginBuy { quote, usdt } => from * 100 < usdt * 101 && 500_000_000 <= usdt
                    <= e.params.trade_size_usdt,
                OpenRefusal::MarginSell { quote, usdt } => to * 100 < usdt * 101 && 500_000_000 <= usdt
                    <= e.params.trade_size_usdt,
                OpenRefusal::Unsupported => c.buy_ex == c.sell_ex,
                _ => true,
            }
        }),
{
    lemma_place_of(e.open_positions@, c.coin@, 0);
    match e.open_outcome(c, x)->Err_0 {
        OpenRefusal::AlreadyOpen => {
            let k = crate::live_trading::place_of(e.open_positions@, c.coin@, 0)->Some_0;
            assert(e.open_positions@[k].coin@ == c.coin@);
        },
        OpenRefusal::Cooldown { remaining_secs } => {
            let d = x.now_ns - e.last_trade_time@[c.coin@];
            if d >= 0 {
                lemma_quotient(d, 1_000_000_000);
            } else {
                lemma_quotient(-d, 1_000_000_000);
            }
        },
        OpenRefusal::NearFunding { seconds } => {
            lemma_next_funding(x.funding_hours as int, x.time.second_of_day());
        },
        OpenRefusal::LowLiquidity { quote, usdt, buy_usdt, sell_usdt } => {
            lemma_quotient(quote.ask * c.buy_book.best_ask_qty->Some_0, 100_000_000);
            lemma_quotient(quote.bid * c.sell_book.best_bid_qty->Some_0, 100_000_000);
        },
        OpenRefusal::MaxPositions { open } => {
            assert(e.open_positions.len() == e.open_positions@.len());
        },
        _ => {},
    }
}

/// The next funding time is a multiple of the interval, and comes within one.
proof fn lemma_next_funding(hours: int, second: int)
    requires
        hours > 0,
        second >= 0,
    ensures
        0 < crate::funding::seconds_to_funding(hours, second) <= hours * 3600,
        (second + crate::funding::seconds_to_funding(hours, second)) % (hours * 3600) == 0,
{
    let i = hours * 3600;
    let s = crate::funding::seconds_to_funding(hours, second);
    vstd::arithmetic::div_mod::lemma_fundamental_div_mod(second, i);
    let q = second / i;
    assert(second + s == (q + 1) * i) by (nonlinear_arith)
        requires
            second == i * q + second % i,
            s == i - second % i,
    ;
    vstd::arithmetic::div_mod::lemma_mod_multiples_basic(q + 1, i);
}

} // verus!
