//! The books of the engine: what opening and closing a trade does to profit, fees,
//! counters, positions and the journal.
use super::amounts::{is_percentage, is_quotient, law_percentage, lemma_quotient};
use crate::live_trading::close::{close_booked, CloseFills};
use crate::live_trading::open::{
    failure_noted, legs_outcome, open_booked, LegsOutcome, OpenCandidate, OpenFills, UnifiedFill,
};
use crate::live_trading::{lemma_place_of, one_per_coin, LiveTradingEngine, OpenPosition};
use crate::price_store::Exchange;
use crate::trade_journal::{TradeRecord, TradeType};
use vstd::prelude::*;

verus! {

/// What the two legs of a position made, in units of SCALE squared: the long leg was
/// bought and is sold, the short leg was sold and is bought back.
pub open spec fn made(p: OpenPosition, sold_at: int, bought_back_at: int) -> int {
    (sold_at - p.entry_buy_price) * p.buy_filled_qty + (p.entry_sell_price - bought_back_at)
        * p.sell_filled_qty
}

/// A position on a coin is found where it stands.
pub proof fn lemma_found(ps: Seq<OpenPosition>, coin: Seq<char>, k: int)
    requires
        one_per_coin(ps),
        0 <= k < ps.len(),
        ps[k].coin@ == coin,
    ensures
        crate::live_trading::place_of(ps, coin, 0) == Some(k),
{
    lemma_place_of(ps, coin, 0);
    match crate::live_trading::place_of(ps, coin, 0) {
        Some(j) => {
            if j < k {
                assert(ps[j].coin@ != ps[k].coin@);
            } else if k < j {
                assert(ps[k].coin@ != ps[j].coin@);
            }
        },
        None => {},
    }
}

/// A closed trade makes what its two legs made, rounded down to a unit, less the fees
/// of all four orders, whether that is a profit or a loss. The journal, the total and
/// the counters of wins and losses tell the same, and the position is gone.
pub proof fn law_closed_trade(
    before: LiveTradingEngine,
    after: LiveTradingEngine,
    coin: Seq<char>,
    fills: CloseFills,
    r: Option<TradeRecord>,
    k: int,
)
    requires
        close_booked(before, after, coin, fills, r),
        one_per_coin(before.open_positions@),
        0 <= k < before.open_positions@.len(),
        before.open_positions@[k].coin@ == coin,
    ensures
        ({
            let p = before.open_positions@[k];
            let rec = r->Some_0;
            let open_fees = p.entry_buy_commission + p.entry_sell_commission;
            let close_fees = fills.sell.commission + fills.buy.commission;
            &&& r is Some
            &&& is_quotient(
                rec.pnl_gross as int,
                made(p, fills.sell.avg_price as int, fills.buy.avg_price as int),
                100_000_000,
            )
            &&& rec.total_fee == open_fees + close_fees
            &&& rec.pnl_net == rec.pnl_gross - rec.total_fee
            &&& rec.trade_type == TradeType::Close
            &&& rec.coin@ == coin
            &&& rec.exchange_buy == p.buy_exchange
            &&& rec.exchange_sell == p.sell_exchange
            &&& rec.buy_fill_price == p.entry_buy_price
            &&& rec.sell_fill_price == p.entry_sell_price
            &&& rec.buy_filled_qty == p.buy_filled_qty
            &&& rec.sell_filled_qty == p.sell_filled_qty
            &&& rec.close_sell_price == Some(fills.sell.avg_price)
            &&& rec.close_buy_price == Some(fills.buy.avg_price)
            &&& rec.close_sell_commission == Some(fills.sell.commission)
            &&& rec.close_buy_commission == Some(fills.buy.commission)
            &&& rec.total_open_fees == Some(open_fees as i128)
            &&& rec.total_close_fees == Some(close_fees as i128)
            &&& rec.entry_spread == Some(p.entry_spread)
            &&& rec.exit_spread == Some(fills.current_spread)
            &&& rec.hold_duration_secs == Some(fills.hold_secs)
            &&& rec.timestamp_ns == fills.now_ns
            &&& rec.id == before.trade_count + 1
            &&& after.trade_count == before.trade_count + 1
            &&& after.closed_count == before.closed_count + 1
            &&& after.total_pnl - before.total_pnl == rec.pnl_net
            &&& after.total_fees_paid - before.total_fees_paid == close_fees
            &&& rec.pnl_net > 0 ==> after.winning_trades == before.winning_trades + 1
                && after.losing_trades == before.losing_trades
            &&& rec.pnl_net <= 0 ==> after.winning_trades == before.winning_trades
                && after.losing_trades == before.losing_trades + 1
            &&& after.open_positions@ == before.open_positions@.remove(k)
            &&& forall|i: int|
                0 <= i < after.open_positions@.len() ==> (
                #[trigger] after.open_positions@[i]).coin@ != coin
            &&& after.last_trade_time@.contains_key(coin)
            &&& after.last_trade_time@[coin] == fills.now_ns
            &&& after.emergency_halt == before.emergency_halt
            &&& after.binance_balance == before.binance_balance
            &&& after.bybit_balance == before.bybit_balance
        }),
{
    let ps = before.open_positions@;
    let p = ps[k];
    lemma_found(ps, coin, k);
    lemma_quotient(
        made(p, fills.sell.avg_price as int, fills.buy.avg_price as int),
        100_000_000,
    );
    let rest = after.open_positions@;
    assert forall|i: int| 0 <= i < rest.len() implies (#[trigger] rest[i]).coin@ != coin by {
        if i < k {
            assert(ps[i].coin@ != ps[k].coin@);
        } else {
            assert(ps[k].coin@ != ps[i + 1].coin@);
        }
    }
}

/// Nothing is booked where there is no position on the coin.
pub proof fn law_nothing_to_close(
    before: LiveTradingEngine,
    after: LiveTradingEngine,
    coin: Seq<char>,
    fills: CloseFills,
    r: Option<TradeRecord>,
)
    requires
        close_booked(before, after, coin, fills, r),
        forall|i: int|
            0 <= i < before.open_positions@.len() ==> (
            #[trigger] before.open_positions@[i]).coin@ != coin,
    ensures
        r is None,
        after == before,
{
    lemma_place_of(before.open_positions@, coin, 0);
}

/// Profits follow prices: of two ways to close the same position, the one that sells
/// lower makes no more, and less where at least one coin is held and the prices differ;
/// so does the one that buys back higher. Where both legs lose, so does the trade, and
/// where neither does, it makes no gross loss.
pub proof fn law_profit_follows_prices(p: OpenPosition, a: CloseFills, b: CloseFills)
    ensures
        a.sell.avg_price <= b.sell.avg_price && a.buy.avg_price >= b.buy.avg_price ==> a.gross(p)
            <= b.gross(p),
        a.sell.avg_price < b.sell.avg_price && a.buy.avg_price >= b.buy.avg_price
            && p.buy_filled_qty >= 100_000_000 ==> a.gross(p) < b.gross(p),
        a.sell.avg_price <= b.sell.avg_price && a.buy.avg_price > b.buy.avg_price
            && p.sell_filled_qty >= 100_000_000 ==> a.gross(p) < b.gross(p),
        a.sell.avg_price < p.entry_buy_price && a.buy.avg_price > p.entry_sell_price
            && p.buy_filled_qty > 0 ==> a.gross(p) < 0,
        a.sell.avg_price >= p.entry_buy_price && a.buy.avg_price <= p.entry_sell_price ==> a.gross(
            p,
        ) >= 0,
{
    let x = made(p, a.sell.avg_price as int, a.buy.avg_price as int);
    let y = made(p, b.sell.avg_price as int, b.buy.avg_price as int);
    lemma_quotient(x, 100_000_000);
    lemma_quotient(y, 100_000_000);
    let bq = p.buy_filled_qty as int;
    let sq = p.sell_filled_qty as int;
    let (sa, sb) = (a.sell.avg_price as int, b.sell.avg_price as int);
    let (ba, bb) = (a.buy.avg_price as int, b.buy.avg_price as int);
    assert(y - x == (sb - sa) * bq + (ba - bb) * sq) by (nonlinear_arith)
        requires
            x == (sa - p.entry_buy_price) * bq + (p.entry_sell_price - ba) * sq,
            y == (sb - p.entry_buy_price) * bq + (p.entry_sell_price - bb) * sq,
    ;
    assert(sb >= sa ==> (sb - sa) * bq >= 0) by (nonlinear_arith)
        requires
            bq >= 0,
    ;
    assert(ba >= bb ==> (ba - bb) * sq >= 0) by (nonlinear_arith)
        requires
            sq >= 0,
    ;
    assert(sb > sa && bq >= 100_000_000 ==> (sb - sa) * bq >= 100_000_000) by (nonlinear_arith);
    assert(ba > bb && sq >= 100_000_000 ==> (ba - bb) * sq >= 100_000_000) by (nonlinear_arith);
    let lost = sa - p.entry_buy_price;
    let paid = p.entry_sell_price - ba;
    assert(lost < 0 && bq > 0 ==> lost * bq < 0) by (nonlinear_arith);
    assert(paid <= 0 ==> paid * sq <= 0) by (nonlinear_arith)
        requires
            sq >= 0,
    ;
    assert(lost >= 0 ==> lost * bq >= 0) by (nonlinear_arith)
        requires
            bq >= 0,
    ;
    assert(paid >= 0 ==> paid * sq >= 0) by (nonlinear_arith)
        requires
            sq >= 0,
    ;
}

/// The profit that is shown for an open position is what its legs would make at the
/// current prices, rounded down, less the fees that were paid to open it.
pub proof fn law_unrealized_profit(p: OpenPosition, long_price: int, short_price: int)
    ensures
        is_quotient(
            p.unrealized(long_price, short_price) + p.entry_buy_commission
                + p.entry_sell_commission,
            made(p, long_price, short_price),
            100_000_000,
        ),
{
    lemma_quotient(made(p, long_price, short_price), 100_000_000);
}

/// An opened trade: the position holds the fills of the two legs, each on its exchange,
/// with the quantities that were left after alignment; only the two fees are booked.
pub proof fn law_opened_trade(
    before: LiveTradingEngine,
    after: LiveTradingEngine,
    c: OpenCandidate,
    fills: OpenFills,
    r: TradeRecord,
)
    requires
        open_booked(before, after, c, fills, r),
    ensures
        ({
            let p = after.open_positions@.last();
            let n = before.open_positions@.len() as int;
            let fees = fills.buy.commission + fills.sell.commission;
            &&& after.open_positions@.len() == n + 1
            &&& forall|i: int|
                0 <= i < n ==> #[trigger] after.open_positions@[i] == before.open_positions@[i]
            &&& p.coin@ == c.coin@
            &&& p.buy_exchange == c.buy_ex
            &&& p.sell_exchange == c.sell_ex
            &&& p.entry_buy_price == fills.buy.avg_price
            &&& p.entry_sell_price == fills.sell.avg_price
            &&& p.buy_filled_qty == fills.buy_qty
            &&& p.sell_filled_qty == fills.sell_qty
            &&& p.buy_quote_value == fills.buy.quote_qty
            &&& p.sell_quote_value == fills.sell.quote_qty
            &&& p.entry_buy_commission == fills.buy.commission
            &&& p.entry_sell_commission == fills.sell.commission
            &&& p.buy_order_id@ == fills.buy.order_id@
            &&& p.sell_order_id@ == fills.sell.order_id@
            &&& p.open_time_ns == fills.now_ns
            &&& p.funding_hours == fills.funding_hours
            &&& p.leg_left is None
            &&& fills.buy.avg_price > 0 ==> is_percentage(
                p.entry_spread as int,
                fills.buy.avg_price as int,
                fills.sell.avg_price as int,
            )
            &&& c.buy_book.best_ask is Some ==> c.buy_book.best_ask == Some(p.entry_buy_book_ask)
            &&& c.buy_book.best_bid is Some ==> c.buy_book.best_bid == Some(p.entry_buy_book_bid)
            &&& c.sell_book.best_ask is Some ==> c.sell_book.best_ask == Some(p.entry_sell_book_ask)
            &&& c.sell_book.best_bid is Some ==> c.sell_book.best_bid == Some(p.entry_sell_book_bid)
            &&& r.trade_type == TradeType::Open
            &&& r.coin@ == c.coin@
            &&& r.exchange_buy == c.buy_ex
            &&& r.exchange_sell == c.sell_ex
            &&& r.buy_fill_price == fills.buy.avg_price
            &&& r.sell_fill_price == fills.sell.avg_price
            &&& r.buy_filled_qty == fills.buy_qty
            &&& r.sell_filled_qty == fills.sell_qty
            &&& r.buy_commission == fills.buy.commission
            &&& r.sell_commission == fills.sell.commission
            &&& r.total_fee == fees
            &&& r.pnl_gross == 0
            &&& r.pnl_net == -fees
            &&& r.spread_before == fills.quote.spread_pct
            &&& r.entry_spread == Some(p.entry_spread)
            &&& r.spread_after == p.entry_spread
            &&& r.timestamp_ns == fills.now_ns
            &&& r.id == before.trade_count + 1
            &&& after.trade_count == before.trade_count + 1
            &&& after.total_fees_paid - before.total_fees_paid == fees
            &&& after.total_pnl == before.total_pnl
            &&& after.closed_count == before.closed_count
            &&& after.winning_trades == before.winning_trades
            &&& after.losing_trades == before.losing_trades
            &&& after.emergency_halt == before.emergency_halt
            &&& after.last_trade_time@.contains_key(c.coin@)
            &&& after.last_trade_time@[c.coin@] == fills.now_ns
        }),
{
    let n = before.open_positions@.len() as int;
    assert forall|i: int| 0 <= i < n implies #[trigger] after.open_positions@[i]
        == before.open_positions@[i] by {
        assert(after.open_positions@[i] == after.open_positions@.drop_last()[i]);
    }
    if fills.buy.avg_price > 0 {
        let from = fills.buy.avg_price as int;
        let to = fills.sell.avg_price as int;
        law_percentage(from, to, to);
        crate::fixed::lemma_quotient_fits((to - from) * 10_000_000_000, from);
    }
}

/// A round trip: opening a position and closing it again leaves the positions as they
/// were. The profit is what the legs made between their fills, rounded down, less all
/// four fees; all four fees are booked.
pub proof fn law_round_trip(
    start: LiveTradingEngine,
    middle: LiveTradingEngine,
    end: LiveTradingEngine,
    c: OpenCandidate,
    opened: OpenFills,
    closed: CloseFills,
    first: TradeRecord,
    second: Option<TradeRecord>,
)
    requires
        one_per_coin(start.open_positions@),
        forall|i: int|
            0 <= i < start.open_positions@.len() ==> (
            #[trigger] start.open_positions@[i]).coin@ != c.coin@,
        open_booked(start, middle, c, opened, first),
        close_booked(middle, end, c.coin@, closed, second),
    ensures
        ({
            let fees = opened.buy.commission + opened.sell.commission + closed.buy.commission
                + closed.sell.commission;
            &&& end.open_positions@ == start.open_positions@
            &&& end.total_fees_paid - start.total_fees_paid == fees
            &&& is_quotient(
                end.total_pnl - start.total_pnl + fees,
                (closed.sell.avg_price - opened.buy.avg_price) * opened.buy_qty + (
                opened.sell.avg_price - closed.buy.avg_price) * opened.sell_qty,
                100_000_000,
            )
            &&& end.trade_count == start.trade_count + 2
            &&& end.closed_count == start.closed_count + 1
        }),
{
    law_opened_trade(start, middle, c, opened, first);
    let n = start.open_positions@.len() as int;
    let ps = middle.open_positions@;
    assert(one_per_coin(ps)) by {
        assert forall|i: int, j: int| 0 <= i < j < ps.len() implies (#[trigger] ps[i]).coin@ != (
        #[trigger] ps[j]).coin@ by {
            assert(ps[i] == start.open_positions@[i]);
            if j < n {
                assert(ps[j] == start.open_positions@[j]);
            }
        }
    }
    law_closed_trade(middle, end, c.coin@, closed, second, n);
    assert(end.open_positions@ =~= start.open_positions@);
}

/// A failed opening: what was filled alone goes back whole on its own exchange, and the
/// engine halts exactly where that failed, where neither leg was filled, or where it was
/// halted before. The coin cools down; nothing else changes.
pub proof fn law_failed_opening(
    before: LiveTradingEngine,
    after: LiveTradingEngine,
    coin: Seq<char>,
    buy_ex: Exchange,
    sell_ex: Exchange,
    buy: Result<UnifiedFill, String>,
    sell: Result<UnifiedFill, String>,
    reversed: bool,
    now_ns: i64,
)
    requires
        failure_noted(
            before,
            after,
            coin,
            legs_outcome(buy_ex, sell_ex, buy, sell),
            reversed,
            now_ns,
        ),
    ensures
        after.emergency_halt <==> before.emergency_halt || !reversed || (buy is Err && sell is Err),
        buy is Ok && sell is Err ==> legs_outcome(buy_ex, sell_ex, buy, sell)
            == (LegsOutcome::ReverseBuy { exchange: buy_ex, quantity: buy->Ok_0.filled_qty }),
        buy is Err && sell is Ok ==> legs_outcome(buy_ex, sell_ex, buy, sell)
            == (LegsOutcome::ReverseSell { exchange: sell_ex, quantity: sell->Ok_0.filled_qty }),
        buy is Ok && sell is Ok <==> legs_outcome(buy_ex, sell_ex, buy, sell) is BothFilled,
        buy is Err && sell is Err <==> legs_outcome(buy_ex, sell_ex, buy, sell) is BothFailed,
        after.last_trade_time@.contains_key(coin),
        after.last_trade_time@[coin] == now_ns,
        after.open_positions@ == before.open_positions@,
        after.total_pnl == before.total_pnl,
        after.total_fees_paid == before.total_fees_paid,
        after.trade_count == before.trade_count,
{
}

/// The journal tells of a position twice, when it is opened and when it is closed, and
/// both times tells the same of its entry: the orders, the prices, the quantities, what
/// was paid and got, the commissions, the books at the time and the funding interval.
/// The second time it also tells of the orders that closed it.
pub proof fn law_records_agree(
    start: LiveTradingEngine,
    middle: LiveTradingEngine,
    end: LiveTradingEngine,
    c: OpenCandidate,
    opened: OpenFills,
    closed: CloseFills,
    first: TradeRecord,
    second: Option<TradeRecord>,
)
    requires
        open_booked(start, middle, c, opened, first),
        one_per_coin(middle.open_positions@),
        close_booked(middle, end, c.coin@, closed, second),
    ensures
        ({
            let r = second->Some_0;
            &&& second is Some
            &&& r.buy_order_id@ == first.buy_order_id@
            &&& r.buy_order_id@ == opened.buy.order_id@
            &&& r.sell_order_id@ == first.sell_order_id@
            &&& r.sell_order_id@ == opened.sell.order_id@
            &&& r.buy_fill_price == first.buy_fill_price
            &&& r.sell_fill_price == first.sell_fill_price
            &&& r.buy_filled_qty == first.buy_filled_qty
            &&& r.sell_filled_qty == first.sell_filled_qty
            &&& r.buy_quote_value == first.buy_quote_value
            &&& r.buy_quote_value == opened.buy.quote_qty
            &&& r.sell_quote_value == first.sell_quote_value
            &&& r.sell_quote_value == opened.sell.quote_qty
            &&& r.buy_commission == first.buy_commission
            &&& r.buy_commission == opened.buy.commission
            &&& r.sell_commission == first.sell_commission
            &&& r.sell_commission == opened.sell.commission
            &&& r.buy_book_bid == first.buy_book_bid
            &&& r.buy_book_ask == first.buy_book_ask
            &&& r.sell_book_bid == first.sell_book_bid
            &&& r.sell_book_ask == first.sell_book_ask
            &&& r.buy_book_bid_qty == first.buy_book_bid_qty
            &&& r.buy_book_bid_qty == c.buy_book.best_bid_qty
            &&& r.buy_book_ask_qty == first.buy_book_ask_qty
            &&& r.buy_book_ask_qty == c.buy_book.best_ask_qty
            &&& r.sell_book_bid_qty == first.sell_book_bid_qty
            &&& r.sell_book_bid_qty == c.sell_book.best_bid_qty
            &&& r.sell_book_ask_qty == first.sell_book_ask_qty
            &&& r.sell_book_ask_qty == c.sell_book.best_ask_qty
            &&& c.buy_book.best_ask is Some ==> c.buy_book.best_ask == Some(r.buy_book_ask)
            &&& c.buy_book.best_bid is Some ==> c.buy_book.best_bid == Some(r.buy_book_bid)
            &&& c.sell_book.best_ask is Some ==> c.sell_book.best_ask == Some(r.sell_book_ask)
            &&& c.sell_book.best_bid is Some ==> c.sell_book.best_bid == Some(r.sell_book_bid)
            &&& r.total_open_fees == first.total_open_fees
            &&& r.entry_spread == first.entry_spread
            &&& r.entry_spread == Some(r.spread_before)
            &&& r.exit_spread == Some(r.spread_after)
            &&& r.funding_interval_hours == first.funding_interval_hours
            &&& r.funding_interval_hours == Some(opened.funding_hours)
            &&& r.close_buy_order_id is Some && r.close_buy_order_id->Some_0@
                == closed.buy.order_id@
            &&& r.close_sell_order_id is Some && r.close_sell_order_id->Some_0@
                == closed.sell.order_id@
            &&& first.close_buy_price is None && first.close_sell_price is None
            &&& first.close_buy_commission is None && first.close_sell_commission is None
            &&& first.total_close_fees is None && first.exit_spread is None
            &&& first.hold_duration_secs is None
            &&& r.total_open_fees is Some && r.total_close_fees is Some
            &&& r.total_fee == r.total_open_fees->Some_0 + r.total_close_fees->Some_0
        }),
{
    let n = start.open_positions@.len() as int;
    lemma_found(middle.open_positions@, c.coin@, n);
}

} // verus!
