//! Closing a position: what is ordered, what follows the two legs, and the books
//! of the engine.
use super::open::{move_price, moved_price, symbol_of, usdt_symbol, UnifiedFill};
use super::{
    compute_gross_profit, exact_price, gross_profit, heuristic_step, holds, lemma_place_of,
    one_per_coin, place_of, rules_for, LiveTradingEngine, OpenLeg, OpenPosition,
};
use crate::clock::{now_nanos, seconds_between, whole_seconds};
use crate::exchanges::exchange_info::round_down_to;
use crate::fixed::MAX_AMOUNT;
use crate::price_store::{
    book_of, get_order_book, CoinPrices, Exchange, OrderBookEntry, PriceStore,
};
use crate::trade_journal::{TradeRecord, TradeType};
use vstd::prelude::*;

verus! {

/// Most attempts to close a leg whose counterpart is closed.
pub const MAX_CLOSE_RETRIES: u32 = 3;

/// The slippage that the limit price of a closing order allows: 0.5%.
pub const CLOSE_SLIPPAGE_PCT: i64 = 50_000_000;

/// What is ordered to close a position: the long leg is sold on the exchange on
/// which it was bought, the short leg bought back on the other. Both orders only
/// reduce.
#[derive(Debug, Clone, Copy, PartialEq, Eq, Structural)]
pub struct ClosePlan {
    /// Exchange of the long leg.
    pub sell_on: Exchange,
    /// Exchange of the short leg.
    pub buy_on: Exchange,
    pub sell_qty: u64,
    pub buy_qty: u64,
    pub worst_sell_price: u64,
    pub worst_buy_price: u64,
    /// Seconds since the position was opened.
    pub hold_secs: i64,
}

/// Why a position cannot be closed.
#[derive(Debug, Clone, Copy, PartialEq, Eq, Structural)]
pub enum CloseRefusal {
    NoPosition,
    /// One leg is closed already, and the other is left for manual review.
    UnderReview,
    /// A quantity is too small to be ordered.
    ZeroQuantity,
    /// Both legs are on the same exchange.
    Unsupported,
}

/// Whether the best prices of a coin are in range.
pub open spec fn quotes_in_range(p: Option<CoinPrices>) -> bool {
    match p {
        Some(prices) => forall|e: Exchange|
            {
                &&& (#[trigger] book_of(prices, e)).best_bid is Some ==> book_of(
                    prices,
                    e,
                ).best_bid->Some_0 <= MAX_AMOUNT
                &&& book_of(prices, e).best_ask is Some ==> book_of(prices, e).best_ask->Some_0
                    <= MAX_AMOUNT
            },
        None => true,
    }
}

fn is_top_in_range(b: &OrderBookEntry) -> (r: bool)
    ensures
        r == ((b.best_bid is Some ==> b.best_bid->Some_0 <= MAX_AMOUNT) && (b.best_ask is Some
            ==> b.best_ask->Some_0 <= MAX_AMOUNT)),
{
    let bid: bool = match b.best_bid {
        Some(v) => v <= MAX_AMOUNT,
        None => true,
    };
    let ask: bool = match b.best_ask {
        Some(v) => v <= MAX_AMOUNT,
        None => true,
    };
    bid && ask
}

/// Whether the best prices of a coin are in range.
pub fn are_quotes_in_range(p: &Option<CoinPrices>) -> (r: bool)
    ensures
        r == quotes_in_range(*p),
{
    match p {
        Some(prices) => {
            let binance: bool = is_top_in_range(&prices.binance_book);
            let bybit: bool = is_top_in_range(&prices.bybit_book);
            assert(book_of(*prices, Exchange::Binance) == prices.binance_book);
            assert(book_of(*prices, Exchange::Bybit) == prices.bybit_book);
            binance && bybit
        },
        None => true,
    }
}

/// The best bid of an exchange, or another price where there is none.
pub open spec fn bid_or(p: Option<CoinPrices>, exchange: Exchange, default: u64) -> u64 {
    match p {
        Some(prices) => match book_of(prices, exchange).best_bid {
            Some(b) => b,
            None => default,
        },
        None => default,
    }
}

/// The best ask of an exchange, or another price where there is none.
pub open spec fn ask_or(p: Option<CoinPrices>, exchange: Exchange, default: u64) -> u64 {
    match p {
        Some(prices) => match book_of(prices, exchange).best_ask {
            Some(a) => a,
            None => default,
        },
        None => default,
    }
}

fn current_bid(p: &Option<CoinPrices>, exchange: Exchange, default: u64) -> (b: u64)
    ensures
        b == bid_or(*p, exchange, default),
{
    match p {
        Some(prices) => match get_order_book(prices, exchange).best_bid {
            Some(b) => b,
            None => default,
        },
        None => default,
    }
}

fn current_ask(p: &Option<CoinPrices>, exchange: Exchange, default: u64) -> (a: u64)
    ensures
        a == ask_or(*p, exchange, default),
{
    match p {
        Some(prices) => match get_order_book(prices, exchange).best_ask {
            Some(a) => a,
            None => default,
        },
        None => default,
    }
}

/// What follows the two legs of a closing trade.
#[derive(Debug, Clone, Copy, PartialEq, Eq, Structural)]
pub enum CloseStep {
    /// Both legs are closed.
    Done,
    /// The long leg is closed; the short leg is bought back again.
    RetryBuy,
    /// The short leg is closed; the long leg is sold again.
    RetrySell,
    /// Neither leg is closed; the position stays for the next pass.
    KeepOpen,
}

/// What follows the two legs of a closing trade.
pub open spec fn close_step(sold: bool, bought: bool) -> CloseStep {
    match (sold, bought) {
        (true, true) => CloseStep::Done,
        (true, false) => CloseStep::RetryBuy,
        (false, true) => CloseStep::RetrySell,
        (false, false) => CloseStep::KeepOpen,
    }
}

/// What follows the two legs of a closing trade. A leg that is closed is never
/// ordered again.
pub fn settle_close(sold: bool, bought: bool) -> (s: CloseStep)
    ensures
        s == close_step(sold, bought),
{
    if sold {
        if bought {
            CloseStep::Done
        } else {
            CloseStep::RetryBuy
        }
    } else if bought {
        CloseStep::RetrySell
    } else {
        CloseStep::KeepOpen
    }
}

/// Milliseconds to wait before an attempt to close the leg that is left, none
/// once all attempts were made.
pub open spec fn retry_delay(attempt: u32) -> Option<u64> {
    if 1 <= attempt <= MAX_CLOSE_RETRIES {
        Some((300 * attempt) as u64)
    } else {
        None
    }
}

/// Milliseconds to wait before an attempt to close the leg that is left, none
/// once all attempts were made. Attempts count from one.
pub fn retry_delay_ms(attempt: u32) -> (d: Option<u64>)
    ensures
        d == retry_delay(attempt),
{
    if 1 <= attempt && attempt <= MAX_CLOSE_RETRIES {
        Some(300 * attempt as u64)
    } else {
        None
    }
}

/// What a leg was closed with.
#[derive(Debug, Clone)]
pub struct CloseFill {
    pub order_id: String,
    pub avg_price: u64,
    pub commission: u64,
}

impl CloseFill {
    /// Price and commission are in range.
    pub open spec fn wf(&self) -> bool {
        self.avg_price <= MAX_AMOUNT && self.commission <= MAX_AMOUNT
    }

    /// What closing keeps of a fill.
    pub fn from_fill(f: &UnifiedFill) -> (c: CloseFill)
        ensures
            c.order_id@ == f.order_id@,
            c.avg_price == f.avg_price,
            c.commission == f.commission,
            f.wf() ==> c.wf(),
    {
        CloseFill {
            order_id: f.order_id.clone(),
            avg_price: f.avg_price,
            commission: f.commission,
        }
    }
}

/// The fills of both legs of a closing trade.
pub struct CloseFills {
    /// The long leg, sold.
    pub sell: CloseFill,
    /// The short leg, bought back.
    pub buy: CloseFill,
    /// Spread % at the decision to close.
    pub current_spread: i128,
    pub hold_secs: i64,
    /// Epoch nanoseconds.
    pub now_ns: i64,
}

impl CloseFills {
    /// Prices and commissions are in range.
    pub open spec fn wf(&self) -> bool {
        self.sell.wf() && self.buy.wf()
    }

    /// Whether prices and commissions are in range.
    pub fn is_in_range(&self) -> (r: bool)
        ensures
            r == self.wf(),
    {
        self.sell.avg_price <= MAX_AMOUNT && self.sell.commission <= MAX_AMOUNT
            && self.buy.avg_price <= MAX_AMOUNT && self.buy.commission <= MAX_AMOUNT
    }

    /// Fees of closing.
    pub open spec fn fees(&self) -> int {
        self.sell.commission + self.buy.commission
    }

    /// Fees of opening a position and of closing it.
    pub open spec fn all_fees(&self, p: OpenPosition) -> int {
        p.entry_buy_commission + p.entry_sell_commission + self.fees()
    }

    /// Profit before fees.
    pub open spec fn gross(&self, p: OpenPosition) -> int {
        gross_profit(
            p.entry_buy_price as int,
            p.buy_filled_qty as int,
            self.sell.avg_price as int,
            p.entry_sell_price as int,
            p.sell_filled_qty as int,
            self.buy.avg_price as int,
        )
    }

    /// Profit after the fees of all four legs.
    pub open spec fn net(&self, p: OpenPosition) -> int {
        self.gross(p) - self.all_fees(p)
    }

    /// Whether a journal record tells of the fills.
    pub open spec fn is_told_by(&self, p: OpenPosition, r: TradeRecord) -> bool {
        &&& r.timestamp_ns == self.now_ns
        &&& r.coin@ == p.coin@
        &&& r.exchange_buy == p.buy_exchange
        &&& r.exchange_sell == p.sell_exchange
        &&& r.trade_type == TradeType::Close
        &&& r.buy_order_id@ == p.buy_order_id@
        &&& r.sell_order_id@ == p.sell_order_id@
        &&& r.buy_fill_price == p.entry_buy_price
        &&& r.sell_fill_price == p.entry_sell_price
        &&& r.buy_filled_qty == p.buy_filled_qty
        &&& r.sell_filled_qty == p.sell_filled_qty
        &&& r.buy_quote_value == p.buy_quote_value
        &&& r.sell_quote_value == p.sell_quote_value
        &&& r.buy_commission == p.entry_buy_commission
        &&& r.buy_commission_asset@ == "USDT"@
        &&& r.sell_commission == p.entry_sell_commission
        &&& r.sell_commission_asset@ == "USDT"@
        &&& r.total_fee == self.all_fees(p)
        &&& r.spread_before == p.entry_spread
        &&& r.spread_after == self.current_spread
        &&& r.pnl_gross == self.gross(p)
        &&& r.pnl_net == self.net(p)
        &&& r.exchange_realized_pnl == 0
        &&& r.buy_book_bid == p.entry_buy_book_bid
        &&& r.buy_book_ask == p.entry_buy_book_ask
        &&& r.buy_book_bid_qty == p.entry_buy_book_bid_qty
        &&& r.buy_book_ask_qty == p.entry_buy_book_ask_qty
        &&& r.sell_book_bid == p.entry_sell_book_bid
        &&& r.sell_book_ask == p.entry_sell_book_ask
        &&& r.sell_book_bid_qty == p.entry_sell_book_bid_qty
        &&& r.sell_book_ask_qty == p.entry_sell_book_ask_qty
        &&& r.close_buy_price == Some(self.buy.avg_price)
        &&& r.close_sell_price == Some(self.sell.avg_price)
        &&& r.close_buy_commission == Some(self.buy.commission)
        &&& r.close_sell_commission == Some(self.sell.commission)
        &&& r.close_buy_order_id is Some && r.close_buy_order_id->Some_0@ == self.buy.order_id@
        &&& r.close_sell_order_id is Some && r.close_sell_order_id->Some_0@ == self.sell.order_id@
        &&& r.total_open_fees == Some(
            (p.entry_buy_commission + p.entry_sell_commission) as i128,
        )
        &&& r.total_close_fees == Some(self.fees() as i128)
        &&& r.hold_duration_secs == Some(self.hold_secs)
        &&& r.entry_spread == Some(p.entry_spread)
        &&& r.exit_spread == Some(self.current_spread)
        &&& r.funding_interval_hours == Some(p.funding_hours)
        &&& r.latency is None
        &&& r.real_account_entry_buy is None
        &&& r.real_account_entry_sell is None
        &&& r.real_unrealized_pnl is None
        &&& r.buy_order_status is Some && r.buy_order_status->Some_0@ == "FILLED"@
        &&& r.sell_order_status is Some && r.sell_order_status->Some_0@ == "FILLED"@
    }

    fn record(&self, id: u64, p: &OpenPosition) -> (r: TradeRecord)
        requires
            p.wf(),
            self.wf(),
        ensures
            r.id == id,
            self.is_told_by(*p, r),
            -40_000_000_000_000_000_000_000_000_000 <= r.pnl_net
                <= 40_000_000_000_000_000_000_000_000_000,
    {
        let open_fees: i128 = p.entry_buy_commission as i128 + p.entry_sell_commission as i128;
        let close_fees: i128 = self.sell.commission as i128 + self.buy.commission as i128;
        let gross: i128 = compute_gross_profit(
            p.entry_buy_price,
            p.buy_filled_qty,
            self.sell.avg_price,
            p.entry_sell_price,
            p.sell_filled_qty,
            self.buy.avg_price,
        );
        TradeRecord {
            id,
            timestamp_ns: self.now_ns,
            coin: p.coin.clone(),
            exchange_buy: p.buy_exchange,
            exchange_sell: p.sell_exchange,
            trade_type: TradeType::Close,
            buy_order_id: p.buy_order_id.clone(),
            sell_order_id: p.sell_order_id.clone(),
            buy_fill_price: p.entry_buy_price,
            sell_fill_price: p.entry_sell_price,
            buy_filled_qty: p.buy_filled_qty,
            sell_filled_qty: p.sell_filled_qty,
            buy_quote_value: p.buy_quote_value,
            sell_quote_value: p.sell_quote_value,
            buy_commission: p.entry_buy_commission,
            buy_commission_asset: "USDT".to_owned(),
            sell_commission: p.entry_sell_commission,
            sell_commission_asset: "USDT".to_owned(),
            total_fee: open_fees + close_fees,
            spread_before: p.entry_spread,
            spread_after: self.current_spread,
            pnl_gross: gross,
            pnl_net: gross - (open_fees + close_fees),
            exchange_realized_pnl: 0,
            buy_book_bid: p.entry_buy_book_bid,
            buy_book_ask: p.entry_buy_book_ask,
            buy_book_bid_qty: p.entry_buy_book_bid_qty,
            buy_book_ask_qty: p.entry_buy_book_ask_qty,
            sell_book_bid: p.entry_sell_book_bid,
            sell_book_ask: p.entry_sell_book_ask,
            sell_book_bid_qty: p.entry_sell_book_bid_qty,
            sell_book_ask_qty: p.entry_sell_book_ask_qty,
            close_buy_price: Some(self.buy.avg_price),
            close_sell_price: Some(self.sell.avg_price),
            close_buy_commission: Some(self.buy.commission),
            close_sell_commission: Some(self.sell.commission),
            close_buy_order_id: Some(self.buy.order_id.clone()),
            close_sell_order_id: Some(self.sell.order_id.clone()),
            total_open_fees: Some(open_fees),
            total_close_fees: Some(close_fees),
            hold_duration_secs: Some(self.hold_secs),
            entry_spread: Some(p.entry_spread),
            exit_spread: Some(self.current_spread),
            funding_interval_hours: Some(p.funding_hours),
            latency: None,
            real_account_entry_buy: None,
            real_account_entry_sell: None,
            real_unrealized_pnl: None,
            buy_order_status: Some("FILLED".to_owned()),
            sell_order_status: Some("FILLED".to_owned()),
        }
    }
}

/// What the order to close a position says.
pub open spec fn close_plan(
    e: LiveTradingEngine,
    p: OpenPosition,
    fresh: Option<CoinPrices>,
    now_ns: int,
) -> ClosePlan {
    let symbol = symbol_of(p.coin@);
    ClosePlan {
        sell_on: p.buy_exchange,
        buy_on: p.sell_exchange,
        sell_qty: round_down_to(
            p.buy_filled_qty as int,
            heuristic_step(p.entry_buy_price as int),
        ) as u64,
        buy_qty: round_down_to(
            p.sell_filled_qty as int,
            heuristic_step(p.entry_sell_price as int),
        ) as u64,
        worst_sell_price: exact_price(
            rules_for(e.exchange_info, p.buy_exchange, symbol),
            moved_price(
                bid_or(fresh, p.buy_exchange, p.entry_buy_price) as int,
                -CLOSE_SLIPPAGE_PCT,
            ),
            false,
        ) as u64,
        worst_buy_price: exact_price(
            rules_for(e.exchange_info, p.sell_exchange, symbol),
            moved_price(
                ask_or(fresh, p.sell_exchange, p.entry_sell_price) as int,
                CLOSE_SLIPPAGE_PCT as int,
            ),
            true,
        ) as u64,
        hold_secs: seconds_between(p.open_time_ns as int, now_ns) as i64,
    }
}

/// Whether the books after a close are those before it with the position on a coin
/// closed by fills, and a journal record tells of it; nothing changes where there is no
/// position on the coin.
pub open spec fn close_booked(
    before: LiveTradingEngine,
    after: LiveTradingEngine,
    coin: Seq<char>,
    fills: CloseFills,
    r: Option<TradeRecord>,
) -> bool {
    match place_of(before.open_positions@, coin, 0) {
        None => r is None && after == before,
        Some(k) => {
            let p = before.open_positions@[k];
            let won: int = if fills.net(p) > 0 {
                1
            } else {
                0
            };
            &&& r is Some
            &&& r->Some_0.id == after.trade_count
            &&& fills.is_told_by(p, r->Some_0)
            &&& after.trade_count == before.trade_count + 1
            &&& after.total_pnl == before.total_pnl + fills.net(p)
            &&& after.total_fees_paid == before.total_fees_paid + fills.fees()
            &&& after.closed_count == before.closed_count + 1
            &&& after.winning_trades == before.winning_trades + won
            &&& after.losing_trades == before.losing_trades + 1 - won
            &&& after.open_positions@ == before.open_positions@.remove(k)
            &&& after.last_trade_time@ == before.last_trade_time@.insert(
                coin,
                fills.now_ns,
            )
            &&& after == (LiveTradingEngine {
                trade_count: after.trade_count,
                total_pnl: after.total_pnl,
                total_fees_paid: after.total_fees_paid,
                closed_count: after.closed_count,
                winning_trades: after.winning_trades,
                losing_trades: after.losing_trades,
                open_positions: after.open_positions,
                last_trade_time: after.last_trade_time,
                ..before
            })
        },
    }
}

/// Positions after the one on a coin was left for review: it is marked with the leg
/// that is left, and nothing else changes.
pub open spec fn left_for_review(
    ps: Seq<OpenPosition>,
    coin: Seq<char>,
    left: OpenLeg,
) -> Seq<OpenPosition> {
    match place_of(ps, coin, 0) {
        Some(k) => ps.update(k, OpenPosition { leg_left: Some(left), ..ps[k] }),
        None => ps,
    }
}

/// Whether the position on a coin was left for review, and nothing else changed but the
/// time of the last trade on it.
pub open spec fn review_begun(
    before: LiveTradingEngine,
    after: LiveTradingEngine,
    coin: Seq<char>,
    left: OpenLeg,
    now_ns: i64,
) -> bool {
    &&& after.open_positions@ == left_for_review(before.open_positions@, coin, left)
    &&& after.last_trade_time@ == before.last_trade_time@.insert(coin, now_ns)
    &&& after == (LiveTradingEngine {
        open_positions: after.open_positions,
        last_trade_time: after.last_trade_time,
        ..before
    })
}

/// Removing the position on a coin leaves none on it, and the others.
proof fn lemma_removed(ps: Seq<OpenPosition>, coin: Seq<char>, k: int)
    requires
        one_per_coin(ps),
        0 <= k < ps.len(),
        ps[k].coin@ == coin,
    ensures
        one_per_coin(ps.remove(k)),
        !holds(ps.remove(k), coin),
{
    let rest = ps.remove(k);
    assert forall|i: int| 0 <= i < rest.len() implies (#[trigger] rest[i]).coin@ != coin by {
        let j = if i < k {
            i
        } else {
            i + 1
        };
        assert(rest[i] == ps[j]);
        assert(ps[j].coin@ != ps[k].coin@);
    }
    assert forall|i: int, j: int| 0 <= i < j < rest.len() implies (#[trigger] rest[i]).coin@ != (
    #[trigger] rest[j]).coin@ by {
        let a = if i < k {
            i
        } else {
            i + 1
        };
        let b = if j < k {
            j
        } else {
            j + 1
        };
        assert(rest[i] == ps[a] && rest[j] == ps[b]);
    }
    lemma_place_of(rest, coin, 0);
}

impl LiveTradingEngine {
    /// The decision to close the position on a coin at a time.
    pub open spec fn close_outcome(
        &self,
        coin: Seq<char>,
        fresh: Option<CoinPrices>,
        now_ns: int,
    ) -> Result<ClosePlan, CloseRefusal> {
        match place_of(self.open_positions@, coin, 0) {
            None => Err(CloseRefusal::NoPosition),
            Some(k) => {
                let p = self.open_positions@[k];
                let plan = close_plan(*self, p, fresh, now_ns);
                if p.leg_left is Some {
                    Err(CloseRefusal::UnderReview)
                } else if plan.sell_qty == 0 || plan.buy_qty == 0 {
                    Err(CloseRefusal::ZeroQuantity)
                } else if p.buy_exchange == p.sell_exchange {
                    Err(CloseRefusal::Unsupported)
                } else {
                    Ok(plan)
                }
            },
        }
    }

    /// Decides what to order to close the position on a coin. The limit prices
    /// lie 0.5% from the current books, or from the entry prices where a book is
    /// empty.
    pub fn decide_close(&self, coin: &str, fresh: &Option<CoinPrices>, now_ns: i64) -> (r: Result<
        ClosePlan,
        CloseRefusal,
    >)
        requires
            self.wf(),
            quotes_in_range(*fresh),
        ensures
            r == self.close_outcome(coin@, *fresh, now_ns as int),
    {
        let k: usize = match self.position_index(coin) {
            Some(k) => k,
            None => {
                return Err(CloseRefusal::NoPosition);
            },
        };
        let p = &self.open_positions[k];
        assert(self.open_positions@[k as int].wf());
        if p.leg_left.is_some() {
            return Err(CloseRefusal::UnderReview);
        }
        let sell_qty: u64 = Self::round_quantity(p.buy_filled_qty, p.entry_buy_price);
        let buy_qty: u64 = Self::round_quantity(p.sell_filled_qty, p.entry_sell_price);
        if sell_qty == 0 || buy_qty == 0 {
            return Err(CloseRefusal::ZeroQuantity);
        }
        let symbol = usdt_symbol(coin);
        let bid: u64 = current_bid(fresh, p.buy_exchange, p.entry_buy_price);
        let ask: u64 = current_ask(fresh, p.sell_exchange, p.entry_sell_price);
        let worst_buy_price: u64 = self.round_price(
            symbol.as_str(),
            p.sell_exchange,
            move_price(ask, CLOSE_SLIPPAGE_PCT),
            true,
        );
        let worst_sell_price: u64 = self.round_price(
            symbol.as_str(),
            p.buy_exchange,
            move_price(bid, -CLOSE_SLIPPAGE_PCT),
            false,
        );
        if p.buy_exchange == p.sell_exchange {
            return Err(CloseRefusal::Unsupported);
        }
        Ok(
            ClosePlan {
                sell_on: p.buy_exchange,
                buy_on: p.sell_exchange,
                sell_qty,
                buy_qty,
                worst_sell_price,
                worst_buy_price,
                hold_secs: whole_seconds(p.open_time_ns, now_ns),
            },
        )
    }

    /// Decides what to order to close the position on a coin now, at the prices
    /// of a store.
    pub fn try_close_position(&self, coin: &str, store: &PriceStore) -> (r: Result<
        ClosePlan,
        CloseRefusal,
    >)
        requires
            self.wf(),
            quotes_in_range(store@.get(coin@)),
        ensures
            exists|now_ns: i64|
                now_ns >= 0 && r == #[trigger] self.close_outcome(
                    coin@,
                    store@.get(coin@),
                    now_ns as int,
                ),
    {
        let fresh = store.get(coin);
        let now_ns: i64 = now_nanos();
        self.decide_close(coin, &fresh, now_ns)
    }

    /// Leaves a position for manual review whose one leg could not be closed in all
    /// attempts. It stays among the open positions, marked with the leg that is left,
    /// so that the closed leg is not ordered again.
    pub fn leave_for_review(&mut self, coin: &str, left: OpenLeg, now_ns: i64)
        requires
            old(self).wf(),
        ensures
            final(self).wf(),
            review_begun(*old(self), *final(self), coin@, left, now_ns),
    {
        if let Some(k) = self.position_index(coin) {
            assert(self.open_positions@[k as int].wf());
            let ghost before = self.open_positions@;
            let p = &mut self.open_positions[k];
            p.leg_left = Some(left);
            proof {
                let after = self.open_positions@;
                assert(after =~= left_for_review(before, coin@, left));
                assert forall|i: int, j: int| 0 <= i < j < after.len() implies (
                #[trigger] after[i]).coin@ != (#[trigger] after[j]).coin@ by {
                    assert(after[i].coin == before[i].coin && after[j].coin == before[j].coin);
                }
            }
        }
        self.last_trade_time.insert(coin.to_owned(), now_ns);
    }

    /// Enters a closed position into the books: profit, fees, counters, the time
    /// of the last trade on the coin; the position is removed. Returns the journal
    /// record, none where there is no position on the coin.
    pub fn book_close(&mut self, coin: &str, fills: &CloseFills) -> (r: Option<TradeRecord>)
        requires
            old(self).wf(),
            old(self).has_room(),
            fills.wf(),
        ensures
            final(self).wf(),
            !holds(final(self).open_positions@, coin@),
            close_booked(*old(self), *final(self), coin@, *fills, r),
    {
        let k: usize = match self.position_index(coin) {
            Some(k) => k,
            None => {
                return None;
            },
        };
        assert(self.open_positions@[k as int].wf());
        proof {
            lemma_removed(self.open_positions@, coin@, k as int);
        }
        let p = self.open_positions.remove(k);
        self.trade_count = self.trade_count + 1;
        let record = fills.record(self.trade_count, &p);
        self.total_pnl = self.total_pnl + record.pnl_net;
        self.total_fees_paid = self.total_fees_paid + (fills.sell.commission as i128
            + fills.buy.commission as i128);
        self.closed_count = self.closed_count + 1;
        if record.pnl_net > 0 {
            self.winning_trades = self.winning_trades + 1;
        } else {
            self.losing_trades = self.losing_trades + 1;
        }
        self.last_trade_time.insert(coin.to_owned(), fills.now_ns);
        Some(record)
    }
}

/// Net profit is what the two legs made less the fees of all four orders, and no
/// fee makes it larger.
pub proof fn law_net_profit(fills: CloseFills, p: OpenPosition)
    ensures
        fills.net(p) == fills.gross(p) - (p.entry_buy_commission + p.entry_sell_commission
            + fills.buy.commission + fills.sell.commission),
        fills.net(p) <= fills.gross(p),
{
}

/// A closing order is never for more than the leg holds, and goes to the exchange
/// of the leg.
pub proof fn law_close_only_reduces(
    e: LiveTradingEngine,
    coin: Seq<char>,
    fresh: Option<CoinPrices>,
    now_ns: int,
)
    requires
        e.wf(),
        e.close_outcome(coin, fresh, now_ns) is Ok,
    ensures
        ({
            let plan = e.close_outcome(coin, fresh, now_ns)->Ok_0;
            let k = place_of(e.open_positions@, coin, 0)->Some_0;
            let p = e.open_positions@[k];
            &&& p.coin@ == coin
            &&& 0 < plan.sell_qty <= p.buy_filled_qty
            &&& 0 < plan.buy_qty <= p.sell_filled_qty
            &&& plan.sell_on == p.buy_exchange
            &&& plan.buy_on == p.sell_exchange
            &&& plan.sell_on != plan.buy_on
        }),
{
    lemma_place_of(e.open_positions@, coin, 0);
    let k = place_of(e.open_positions@, coin, 0)->Some_0;
    let p = e.open_positions@[k];
    crate::exchanges::exchange_info::law_round_down(
        p.buy_filled_qty as int,
        heuristic_step(p.entry_buy_price as int),
    );
    crate::exchanges::exchange_info::law_round_down(
        p.sell_filled_qty as int,
        heuristic_step(p.entry_sell_price as int),
    );
}

/// A position that is left for review stays open, and nothing is ordered for it any
/// more.
pub proof fn law_review_orders_nothing(
    e: LiveTradingEngine,
    after: LiveTradingEngine,
    coin: Seq<char>,
    left: OpenLeg,
    fresh: Option<CoinPrices>,
    now_ns: int,
)
    requires
        holds(e.open_positions@, coin),
        after.open_positions@ == left_for_review(e.open_positions@, coin, left),
    ensures
        holds(after.open_positions@, coin),
        after.open_positions@.len() == e.open_positions@.len(),
        after.close_outcome(coin, fresh, now_ns) == Err::<ClosePlan, CloseRefusal>(
            CloseRefusal::UnderReview,
        ),
{
    let before = e.open_positions@;
    let marked = after.open_positions@;
    lemma_place_of(before, coin, 0);
    lemma_place_of(marked, coin, 0);
    lemma_first_place(before, coin, 0);
    let k = place_of(before, coin, 0)->Some_0;
    assert(marked[k].coin@ == coin);
    let m = place_of(marked, coin, 0)->Some_0;
    lemma_first_place(marked, coin, 0);
    if m < k {
        assert(marked[m] == before[m]);
    }
    assert(m == k);
}

/// No position before the place that is found is on the coin.
proof fn lemma_first_place(ps: Seq<OpenPosition>, coin: Seq<char>, i: int)
    requires
        0 <= i <= ps.len(),
    ensures
        place_of(ps, coin, i) is Some ==> forall|j: int|
            i <= j < place_of(ps, coin, i)->Some_0 ==> (#[trigger] ps[j]).coin@ != coin,
    decreases ps.len() - i,
{
    if i < ps.len() && ps[i].coin@ != coin {
        lemma_first_place(ps, coin, i + 1);
    }
}

/// Closing undoes opening: with a position entered on a coin that had none, the
/// coin is found at the end, and without it the positions are what they were.
pub proof fn law_close_undoes_open(ps: Seq<OpenPosition>, p: OpenPosition)
    requires
        !holds(ps, p.coin@),
    ensures
        place_of(ps.push(p), p.coin@, 0) == Some(ps.len() as int),
        ps.push(p).remove(ps.len() as int) == ps,
{
    lemma_place_of(ps, p.coin@, 0);
    lemma_place_of(ps.push(p), p.coin@, 0);
    let all = ps.push(p);
    assert(all[ps.len() as int].coin@ == p.coin@);
    assert forall|j: int| 0 <= j < ps.len() implies (#[trigger] all[j]).coin@ != p.coin@ by {
        assert(all[j] == ps[j]);
    }
    assert(all.remove(ps.len() as int) =~= ps);
}

} // verus!
