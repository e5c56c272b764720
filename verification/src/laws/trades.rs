//! The course of a trade: which order follows which reply of the exchanges.
use super::amounts::{is_quotient, lemma_quotient_unique};
use super::opening::lemma_moved;
use crate::exchanges::exchange_info::law_round_down;
use crate::live_trading::close::CloseFill;
use crate::live_trading::open::{
    alignment_slip, needed_alignment, Alignment, OpenCandidate, OpenFills, UnifiedFill,
};
use crate::live_trading::runs::{
    alignment_for, close_concluded, open_concluded, CloseAction, CloseRun, OpenAction, OpenRun,
};
use crate::live_trading::{heuristic_step, one_per_coin, LiveTradingEngine, OpenLeg, OpenPosition};
use crate::latency::TradeLatency;
use crate::price_store::OrderBookEntry;
use crate::trade_journal::TradeRecord;
use vstd::prelude::*;

verus! {

/// When filled legs are aligned: both were filled, and the smaller lacks more than a
/// thousandth of the larger. The larger leg gives back the difference in whole steps.
pub proof fn law_alignment_is_needed(buy: UnifiedFill, sell: UnifiedFill)
    ensures
        ({
            let b = buy.filled_qty as int;
            let s = sell.filled_qty as int;
            let (large, small, price) = if b > s {
                (b, s, buy.avg_price)
            } else {
                (s, b, sell.avg_price)
            };
            let step = heuristic_step(price as int);
            let a = needed_alignment(buy, sell);
            &&& a is Some <==> b > 0 && s > 0 && (large - small) * 1000 > large
            &&& a is Some ==> {
                let n = a->Some_0;
                &&& n.buy_qty == b
                &&& n.sell_qty == s
                &&& n.min_qty == small
                &&& n.on_buy == (b > s)
                &&& n.price == price
                &&& n.attempts == 0
                &&& n.excess as int % step == 0
                &&& n.excess <= large - small < n.excess + step
            }
        }),
{
    let b = buy.filled_qty as int;
    let s = sell.filled_qty as int;
    let (large, small, price) = if b > s {
        (b, s, buy.avg_price)
    } else {
        (s, b, sell.avg_price)
    };
    law_round_down(large - small, heuristic_step(price as int));
}

/// An order that aligns: the larger leg gives back its excess, a buy leg by selling from
/// the best bid of its book, a sell leg by buying from the best ask of its book, or from
/// its fill price where there is none. It may slip by 0.2% at the first attempt and by
/// 0.5% at the second; there is no third.
pub proof fn law_alignment_order(
    a: Alignment,
    buy_book: OrderBookEntry,
    sell_book: OrderBookEntry,
    limit: int,
)
    requires
        a.price <= 1_000_000_000_000_000_000,
        buy_book.best_bid is Some ==> buy_book.best_bid->Some_0 <= 1_000_000_000_000_000_000,
        sell_book.best_ask is Some ==> sell_book.best_ask->Some_0 <= 1_000_000_000_000_000_000,
        ({
            let slip: int = if a.attempts == 0 {
                20_000_000
            } else {
                50_000_000
            };
            let seen = if a.on_buy {
                buy_book.best_bid
            } else {
                sell_book.best_ask
            };
            let from = if seen is Some {
                seen->Some_0 as int
            } else {
                a.price as int
            };
            is_quotient(
                limit,
                if a.on_buy {
                    from * (10_000_000_000 - slip)
                } else {
                    from * (10_000_000_000 + slip)
                },
                10_000_000_000,
            )
        }),
    ensures
        a.order(buy_book, sell_book) is Some <==> a.excess > 0 && a.attempts < 2,
        a.order(buy_book, sell_book) is Some ==> {
            let o = a.order(buy_book, sell_book)->Some_0;
            &&& o.is_buy == !a.on_buy
            &&& o.quantity == a.excess
            &&& o.worst_price == limit
        },
{
    let slip = alignment_slip(a.attempts);
    let from = a.reference(buy_book, sell_book) as int;
    lemma_moved(from, slip);
    lemma_moved(from, -slip);
    let up = crate::live_trading::open::moved_price(from, slip);
    let down = crate::live_trading::open::moved_price(from, -slip);
    if a.on_buy {
        lemma_quotient_unique(limit, down, from * (10_000_000_000 - slip), 10_000_000_000);
    } else {
        lemma_quotient_unique(limit, up, from * (10_000_000_000 + slip), 10_000_000_000);
    }
    assert(0 <= up <= 2 * from) by (nonlinear_arith)
        requires
            up * 10_000_000_000 <= from * (10_000_000_000 + slip),
            from * (10_000_000_000 + slip) < (up + 1) * 10_000_000_000,
            0 <= slip <= 10_000_000_000,
            from >= 0,
    ;
    assert(0 <= down <= from) by (nonlinear_arith)
        requires
            down * 10_000_000_000 <= from * (10_000_000_000 - slip),
            from * (10_000_000_000 - slip) < (down + 1) * 10_000_000_000,
            0 <= slip <= 10_000_000_000,
            from >= 0,
    ;
}

/// What an alignment order leaves: the larger leg loses what was filled, the other leg
/// keeps what it has, and one attempt is used up. Where the whole excess was filled, what
/// is left too much is less than one step, and nothing more is ordered.
pub proof fn law_alignment_answer(a: Alignment, filled: Option<u64>)
    requires
        a.attempts < 2,
    ensures
        ({
            let n = a.after(filled);
            let q: int = if filled is Some {
                filled->Some_0 as int
            } else {
                0
            };
            let had: int = if a.on_buy {
                a.buy_qty as int
            } else {
                a.sell_qty as int
            };
            let has: int = if a.on_buy {
                n.buy_qty as int
            } else {
                n.sell_qty as int
            };
            let step = heuristic_step(a.price as int);
            &&& n.attempts == a.attempts + 1
            &&& n.on_buy == a.on_buy
            &&& n.min_qty == a.min_qty
            &&& n.price == a.price
            &&& a.on_buy ==> n.sell_qty == a.sell_qty
            &&& !a.on_buy ==> n.buy_qty == a.buy_qty
            &&& has == if had >= q {
                had - q
            } else {
                0
            }
            &&& q == 0 ==> n.excess == a.excess
            &&& q > 0 ==> n.excess as int % step == 0 && n.excess <= (if has >= a.min_qty {
                has - a.min_qty
            } else {
                0
            }) < n.excess + step
            &&& q == a.excess && q > 0 && a.excess <= had - a.min_qty < a.excess + step
                ==> n.excess == 0
        }),
{
    let step = heuristic_step(a.price as int);
    let q: int = if filled is Some {
        filled->Some_0 as int
    } else {
        0
    };
    let had: int = if a.on_buy {
        a.buy_qty as int
    } else {
        a.sell_qty as int
    };
    let has = if had >= q {
        had - q
    } else {
        0
    };
    let over = if has >= a.min_qty {
        has - a.min_qty
    } else {
        0
    };
    law_round_down(over, step);
    if over < step {
        assert(over / step == 0) by (nonlinear_arith)
            requires
                0 <= over < step,
        ;
    }
}

/// What follows in an opening trade, for every state it can be in: both orders first; a
/// single filled leg is given back whole at market, once; two filled legs are aligned as
/// long as the alignment orders something, then booked; anything else fails.
pub proof fn law_opening_course(run: OpenRun)
    ensures
        run.legs is None <==> run.action() == OpenAction::SendBoth,
        run.legs is Some ==> {
            let buy = run.legs->Some_0.0;
            let sell = run.legs->Some_0.1;
            let next = match run.alignment {
                Some(a) => a.order(run.buy_book, run.sell_book),
                None => None,
            };
            &&& buy is Err && sell is Err ==> run.action() == OpenAction::Fail
            &&& (buy is Ok) != (sell is Ok) && run.reversed is Some ==> run.action()
                == OpenAction::Fail
            &&& (buy is Ok) != (sell is Ok) && run.reversed is None ==> match run.action() {
                OpenAction::Reverse(o) => {
                    &&& o.is_buy == (sell is Ok)
                    &&& o.exchange == (if buy is Ok {
                        run.buy_ex
                    } else {
                        run.sell_ex
                    })
                    &&& o.quantity == (if buy is Ok {
                        buy->Ok_0.filled_qty
                    } else {
                        sell->Ok_0.filled_qty
                    })
                    &&& o.reduce_only
                    &&& o.price is None
                },
                _ => false,
            }
            &&& buy is Ok && sell is Ok && next is None ==> run.action() == OpenAction::Book
            &&& buy is Ok && sell is Ok && next is Some ==> match run.action() {
                OpenAction::Align(o) => {
                    &&& o.is_buy == next->Some_0.is_buy
                    &&& o.quantity == next->Some_0.quantity
                    &&& o.price == Some(next->Some_0.worst_price)
                    &&& o.exchange == (if run.alignment->Some_0.on_buy {
                        run.buy_ex
                    } else {
                        run.sell_ex
                    })
                    &&& o.reduce_only
                },
                _ => false,
            }
        },
        ({
            let (buy, sell) = run.legs_spec();
            &&& buy.is_buy && !sell.is_buy
            &&& buy.exchange == run.buy_ex && sell.exchange == run.sell_ex
            &&& buy.quantity == run.plan.quantity && sell.quantity == run.plan.quantity
            &&& buy.price is None && sell.price is None
            &&& !buy.reduce_only && !sell.reduce_only
        }),
{
}

/// What an opening trade is booked with: the fills of its two legs, and the quantities
/// that its alignment left, or those that were filled where none was needed.
pub proof fn law_opening_is_booked(
    before: LiveTradingEngine,
    after: LiveTradingEngine,
    c: OpenCandidate,
    run: OpenRun,
    funding_hours: u32,
    now_ns: i64,
    latency: TradeLatency,
    r: Option<TradeRecord>,
)
    requires
        open_concluded(before, after, c, run, funding_hours, now_ns, latency, r),
        run.legs is Some,
        run.action() == OpenAction::Book || run.action() == OpenAction::Fail,
    ensures
        ({
            let buy = run.legs->Some_0.0;
            let sell = run.legs->Some_0.1;
            &&& r is Some <==> buy is Ok && sell is Ok
            &&& r is Some ==> {
                let p = after.open_positions@.last();
                let rec = r->Some_0;
                &&& after.open_positions@.len() == before.open_positions@.len() + 1
                &&& p.coin@ == c.coin@
                &&& p.buy_exchange == c.buy_ex
                &&& p.sell_exchange == c.sell_ex
                &&& p.entry_buy_price == buy->Ok_0.avg_price
                &&& p.entry_sell_price == sell->Ok_0.avg_price
                &&& p.entry_buy_commission == buy->Ok_0.commission
                &&& p.entry_sell_commission == sell->Ok_0.commission
                &&& run.alignment is Some ==> p.buy_filled_qty == run.alignment->Some_0.buy_qty
                    && p.sell_filled_qty == run.alignment->Some_0.sell_qty
                &&& run.alignment is None ==> p.buy_filled_qty == buy->Ok_0.filled_qty
                    && p.sell_filled_qty == sell->Ok_0.filled_qty
                &&& p.open_time_ns == now_ns
                &&& p.funding_hours == funding_hours
                &&& after.total_fees_paid == before.total_fees_paid + buy->Ok_0.commission
                    + sell->Ok_0.commission
                &&& after.total_pnl == before.total_pnl
                &&& rec.latency == Some(latency)
                &&& rec.buy_fill_price == buy->Ok_0.avg_price
                &&& rec.sell_fill_price == sell->Ok_0.avg_price
                &&& after.emergency_halt == before.emergency_halt
            }
            &&& r is None ==> {
                &&& after.open_positions == before.open_positions
                &&& after.emergency_halt <==> before.emergency_halt || run.reversed != Some(true)
                &&& after.total_fees_paid == before.total_fees_paid
            }
            &&& after.last_trade_time@ == before.last_trade_time@.insert(c.coin@, now_ns)
        }),
{
    if run.action() == OpenAction::Book {
        let f = choose|f: OpenFills|
            {
                &&& #[trigger] run.is_filled_by(f, funding_hours, now_ns)
                &&& crate::live_trading::open::open_booked(before, after, c, f, r->Some_0)
                &&& r->Some_0.latency == Some(latency)
            };
        super::booking::law_opened_trade(before, after, c, f, r->Some_0);
    }
}

/// The legs that came back decide whether an alignment is needed.
pub proof fn law_alignment_follows_legs(
    buy: Result<UnifiedFill, String>,
    sell: Result<UnifiedFill, String>,
)
    ensures
        buy is Err || sell is Err ==> alignment_for(buy, sell) is None,
        buy is Ok && sell is Ok ==> alignment_for(buy, sell) == needed_alignment(
            buy->Ok_0,
            sell->Ok_0,
        ),
{
}

/// What follows in a closing trade, for every state it can be in. Where one leg is
/// closed, the other is ordered again at market for what it holds, after 300, 600 and 900
/// milliseconds; then the position is left for review. The closed leg is left alone.
pub proof fn law_closing_course(run: CloseRun)
    requires
        run.retries <= 3,
    ensures
        !run.answered <==> run.action() == CloseAction::SendBoth,
        run.answered ==> {
            &&& run.sold is Some && run.bought is Some <==> run.action() == CloseAction::Book
            &&& run.sold is None && run.bought is None <==> run.action() == CloseAction::KeepOpen
            &&& (run.sold is Some) != (run.bought is Some) && run.retries >= 3 <==> run.action()
                == CloseAction::Review
            &&& (run.sold is Some) != (run.bought is Some) && run.retries < 3
                ==> match run.action() {
                CloseAction::Retry { delay_ms, order } => {
                    &&& run.retries == 0 ==> delay_ms == 300
                    &&& run.retries == 1 ==> delay_ms == 600
                    &&& run.retries == 2 ==> delay_ms == 900
                    &&& order.price is None
                    &&& order.reduce_only
                    &&& run.sold is Some ==> order.is_buy && order.exchange == run.plan.buy_on
                        && order.quantity == run.plan.buy_qty
                    &&& run.bought is Some ==> !order.is_buy && order.exchange == run.plan.sell_on
                        && order.quantity == run.plan.sell_qty
                },
                _ => false,
            }
        },
        ({
            let sell = run.sell_order(Some(run.plan.worst_sell_price));
            let buy = run.buy_order(Some(run.plan.worst_buy_price));
            &&& !sell.is_buy && buy.is_buy
            &&& sell.exchange == run.plan.sell_on && buy.exchange == run.plan.buy_on
            &&& sell.quantity == run.plan.sell_qty && buy.quantity == run.plan.buy_qty
            &&& sell.reduce_only && buy.reduce_only
            &&& sell.price == Some(run.plan.worst_sell_price)
            &&& buy.price == Some(run.plan.worst_buy_price)
        }),
{
}

/// How a closing trade ends. Where both legs are closed, the position is gone and its
/// profit booked from the two fills. Where only one is, the position stays, marked with
/// the leg that is still open. Where neither is, nothing changes.
pub proof fn law_closing_is_concluded(
    before: LiveTradingEngine,
    after: LiveTradingEngine,
    coin: Seq<char>,
    run: CloseRun,
    current_spread: i128,
    now_ns: i64,
    r: Option<TradeRecord>,
    k: int,
)
    requires
        close_concluded(before, after, coin, run, current_spread, now_ns, r),
        run.answered,
        run.action() !is Retry,
        run.retries <= 3,
        one_per_coin(before.open_positions@),
        0 <= k < before.open_positions@.len(),
        before.open_positions@[k].coin@ == coin,
    ensures
        ({
            let p = before.open_positions@[k];
            &&& run.sold is Some && run.bought is Some <==> r is Some
            &&& r is Some ==> {
                let fees = p.entry_buy_commission + p.entry_sell_commission
                    + run.sold->Some_0.commission + run.bought->Some_0.commission;
                &&& after.open_positions@ == before.open_positions@.remove(k)
                &&& is_quotient(
                    after.total_pnl - before.total_pnl + fees,
                    super::booking::made(
                        p,
                        run.sold->Some_0.avg_price as int,
                        run.bought->Some_0.avg_price as int,
                    ),
                    100_000_000,
                )
                &&& r->Some_0.pnl_net == after.total_pnl - before.total_pnl
                &&& r->Some_0.hold_duration_secs == Some(run.plan.hold_secs)
                &&& r->Some_0.exit_spread == Some(current_spread)
                &&& r->Some_0.timestamp_ns == now_ns
            }
            &&& run.sold is Some && run.bought is None ==> after.open_positions@
                == before.open_positions@.update(
                k,
                OpenPosition { leg_left: Some(OpenLeg::Short), ..p },
            )
            &&& run.sold is None && run.bought is Some ==> after.open_positions@
                == before.open_positions@.update(
                k,
                OpenPosition { leg_left: Some(OpenLeg::Long), ..p },
            )
            &&& (run.sold is Some) != (run.bought is Some) ==> {
                &&& after.total_pnl == before.total_pnl
                &&& after.closed_count == before.closed_count
                &&& after.last_trade_time@ == before.last_trade_time@.insert(coin, now_ns)
            }
            &&& run.sold is None && run.bought is None ==> after == before
        }),
{
    super::booking::lemma_found(before.open_positions@, coin, k);
    law_closing_course(run);
    if run.action() == CloseAction::Book {
        let fills = crate::live_trading::close::CloseFills {
            sell: run.sold->Some_0,
            buy: run.bought->Some_0,
            current_spread,
            hold_secs: run.plan.hold_secs,
            now_ns,
        };
        super::booking::law_closed_trade(before, after, coin, fills, r, k);
    }
}

/// The step of quantities that is estimated from a price: it divides a coin, never grows
/// with the price, and one step of anything below a thousand dollars is worth less than
/// one dollar.
pub proof fn law_estimated_step(price: int, more: int)
    requires
        0 <= price <= more,
    ensures
        heuristic_step(price) > 0,
        100_000_000int % heuristic_step(price) == 0,
        heuristic_step(more) <= heuristic_step(price),
        heuristic_step(price) >= 10_000,
        price < 100_000_000_000 ==> heuristic_step(price) * price < 100_000_000 * 100_000_000,
        price < 20_000_000 ==> heuristic_step(price) == 100_000_000,
        price >= 100_000_000_000 ==> heuristic_step(price) == 10_000,
{
    let h = heuristic_step(price);
    assert(price < 20_000_000 && h == 100_000_000 ==> h * price < 100_000_000 * 100_000_000)
        by (nonlinear_arith);
    assert(price < 200_000_000 && h == 10_000_000 ==> h * price < 100_000_000 * 100_000_000)
        by (nonlinear_arith);
    assert(price < 5_000_000_000 && h == 1_000_000 ==> h * price < 100_000_000 * 100_000_000)
        by (nonlinear_arith);
    assert(price < 100_000_000_000 && h == 100_000 ==> h * price < 100_000_000 * 100_000_000)
        by (nonlinear_arith);
}

/// What the exchanges answer is noted as they answered it: the fill of the purchase as
/// that of the purchase, the fill of the sale as that of the sale. The orders that were
/// decided on stay.
pub proof fn law_answers_are_noted(
    run: OpenRun,
    buy: Result<UnifiedFill, String>,
    sell: Result<UnifiedFill, String>,
    close: CloseRun,
    sold: Option<CloseFill>,
    bought: Option<CloseFill>,
)
    ensures
        ({
            let r = run.answered_with(buy, sell);
            &&& r.legs is Some
            &&& r.legs->Some_0.0 == buy
            &&& r.legs->Some_0.1 == sell
            &&& r.buy_ex == run.buy_ex
            &&& r.sell_ex == run.sell_ex
            &&& r.plan == run.plan
            &&& r.reversed == run.reversed
        }),
        ({
            let r = close.answered_with(sold, bought);
            &&& r.answered
            &&& r.sold == sold
            &&& r.bought == bought
            &&& r.plan == close.plan
            &&& r.retries == close.retries
        }),
{
}

/// Another attempt counts, and changes the leg that was left; the leg that is closed
/// keeps its fill.
pub proof fn law_attempts_count(run: CloseRun, fill: Option<CloseFill>)
    requires
        run.retries < u32::MAX,
    ensures
        ({
            let r = run.retried(fill);
            &&& r.retries == run.retries + 1
            &&& r.plan == run.plan
            &&& r.answered == run.answered
            &&& run.sold is Some ==> r.sold == run.sold && r.bought == fill
            &&& run.sold is None ==> r.bought == run.bought && r.sold == fill
        }),
{
}

} // verus!
