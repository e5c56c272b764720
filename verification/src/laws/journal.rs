//! What the summary of the journal says of the trades in it.
use super::amounts::{is_quotient, lemma_quotient};
use crate::price_store::Exchange;
use crate::trade_journal::{
    best_in, closed_in, closed_sum, fees_in, gross_of, net_of, open_after, spread_of, stats_in,
    summarises, wins_in, worst_in, ExchangeTradeStats, TradeRecord, TradeSummary, TradeType,
    MAX_RECORDS, RECORD_LIMIT,
};
use vstd::prelude::*;

verus! {

/// What the first trades add up to does not depend on those after them.
proof fn lemma_counts_of_first(t: Seq<TradeRecord>, r: TradeRecord, n: int)
    requires
        0 <= n <= t.len(),
    ensures
        closed_in(t.push(r), n) == closed_in(t, n),
        wins_in(t.push(r), n) == wins_in(t, n),
        open_after(t.push(r), n) == open_after(t, n),
        fees_in(t.push(r), n) == fees_in(t, n),
        best_in(t.push(r), n) == best_in(t, n),
        worst_in(t.push(r), n) == worst_in(t, n),
        best_in(t, n) is Some <==> closed_in(t, n) > 0,
        worst_in(t, n) is Some <==> closed_in(t, n) > 0,
        0 <= wins_in(t, n) <= closed_in(t, n),
        0 <= open_after(t, n),
    decreases n,
{
    if n > 0 {
        lemma_counts_of_first(t, r, n - 1);
        assert(t.push(r)[n - 1] == t[n - 1]);
    }
}

/// The same of a sum over the closing trades.
proof fn lemma_sum_of_first(
    t: Seq<TradeRecord>,
    r: TradeRecord,
    n: int,
    value: spec_fn(TradeRecord) -> int,
)
    requires
        0 <= n <= t.len(),
    ensures
        closed_sum(t.push(r), n, value) == closed_sum(t, n, value),
    decreases n,
{
    if n > 0 {
        lemma_sum_of_first(t, r, n - 1, value);
        assert(t.push(r)[n - 1] == t[n - 1]);
    }
}

/// The same of what an exchange took part in, whose totals also fit their types.
proof fn lemma_stats_of_first(t: Seq<TradeRecord>, r: TradeRecord, n: int, ex: Exchange)
    requires
        0 <= n <= t.len() <= MAX_RECORDS,
        forall|i: int| 0 <= i < t.len() ==> (#[trigger] t[i]).in_range(),
    ensures
        stats_in(t.push(r), n, ex) == stats_in(t, n, ex),
        stats_in(t, n, ex).trades_as_buy <= n,
        stats_in(t, n, ex).trades_as_sell <= n,
        0 <= stats_in(t, n, ex).total_fees_paid <= n * 40_000_000_000_000_000_000,
        -n * 2 * RECORD_LIMIT <= stats_in(t, n, ex).total_pnl_contribution <= n * 2
            * RECORD_LIMIT,
    decreases n,
{
    if n > 0 {
        lemma_stats_of_first(t, r, n - 1, ex);
        assert(t.push(r)[n - 1] == t[n - 1]);
        assert(t[n - 1].in_range());
    }
}

/// Whether the part of an exchange in the trades grows by what a trade says: by one
/// purchase and its commission where it was bought on, by one sale and its commission
/// where it was sold on.
pub open spec fn took_part(
    before: ExchangeTradeStats,
    after: ExchangeTradeStats,
    r: TradeRecord,
    ex: Exchange,
) -> bool {
    let bought = r.exchange_buy == ex;
    let sold = r.exchange_sell == ex;
    let earned = after.total_pnl_contribution - before.total_pnl_contribution;
    &&& after.trades_as_buy - before.trades_as_buy == if bought {
        1int
    } else {
        0
    }
    &&& after.trades_as_sell - before.trades_as_sell == if sold {
        1int
    } else {
        0
    }
    &&& after.total_fees_paid - before.total_fees_paid == (if bought {
        r.buy_commission as int
    } else {
        0
    }) + (if sold {
        r.sell_commission as int
    } else {
        0
    })
    &&& bought && sold && r.trade_type == TradeType::Close ==> earned == r.pnl_net
    &&& bought && !sold && r.trade_type == TradeType::Close ==> 2 * earned <= r.pnl_net < 2
        * earned + 2
    &&& !bought && sold && r.trade_type == TradeType::Close ==> 2 * earned - 2 < r.pnl_net <= 2
        * earned
    &&& !bought && !sold || r.trade_type == TradeType::Open ==> earned == 0
}

/// One more trade changes the summary by what it says. An opening trade counts as
/// one more open position and changes profits in no way. A closing trade ends one
/// position, counts as won where it made a net profit and as lost otherwise, and adds
/// its profits, losses as well as gains. Fees add up over both.
pub proof fn law_one_more_trade(
    t: Seq<TradeRecord>,
    r: TradeRecord,
    s: TradeSummary,
    more: TradeSummary,
)
    requires
        t.len() < MAX_RECORDS,
        forall|i: int| 0 <= i < t.len() ==> (#[trigger] t[i]).in_range(),
        r.in_range(),
        summarises(s, t),
        summarises(more, t.push(r)),
    ensures
        more.total_trades == s.total_trades + 1,
        more.total_fees == s.total_fees + r.total_fee,
        r.trade_type == TradeType::Open ==> {
            &&& more.open_trades == s.open_trades + 1
            &&& more.closed_trades == s.closed_trades
            &&& more.winning_trades == s.winning_trades
            &&& more.losing_trades == s.losing_trades
            &&& more.win_rate == s.win_rate
            &&& more.total_pnl_net == s.total_pnl_net
            &&& more.total_pnl_gross == s.total_pnl_gross
            &&& more.avg_spread_captured == s.avg_spread_captured
            &&& more.best_trade_pnl == s.best_trade_pnl
            &&& more.worst_trade_pnl == s.worst_trade_pnl
        },
        r.trade_type == TradeType::Close ==> {
            &&& s.open_trades > 0 ==> more.open_trades == s.open_trades - 1
            &&& s.open_trades == 0 ==> more.open_trades == 0
            &&& more.closed_trades == s.closed_trades + 1
            &&& r.pnl_net > 0 ==> more.winning_trades == s.winning_trades + 1
                && more.losing_trades == s.losing_trades
            &&& r.pnl_net <= 0 ==> more.losing_trades == s.losing_trades + 1
                && more.winning_trades == s.winning_trades
            &&& more.total_pnl_net == s.total_pnl_net + r.pnl_net
            &&& more.total_pnl_gross == s.total_pnl_gross + r.pnl_gross
            &&& s.closed_trades == 0 ==> more.best_trade_pnl == r.pnl_net && more.worst_trade_pnl
                == r.pnl_net
            &&& s.closed_trades > 0 && r.pnl_net >= s.best_trade_pnl ==> more.best_trade_pnl
                == r.pnl_net
            &&& s.closed_trades > 0 && r.pnl_net <= s.best_trade_pnl ==> more.best_trade_pnl
                == s.best_trade_pnl
            &&& s.closed_trades > 0 && r.pnl_net <= s.worst_trade_pnl ==> more.worst_trade_pnl
                == r.pnl_net
            &&& s.closed_trades > 0 && r.pnl_net >= s.worst_trade_pnl ==> more.worst_trade_pnl
                == s.worst_trade_pnl
        },
        took_part(s.binance, more.binance, r, Exchange::Binance),
        took_part(s.bybit, more.bybit, r, Exchange::Bybit),
{
    let n = t.len() as int;
    lemma_counts_of_first(t, r, n);
    lemma_sum_of_first(t, r, n, net_of());
    lemma_sum_of_first(t, r, n, gross_of());
    lemma_sum_of_first(t, r, n, spread_of());
    lemma_stats_of_first(t, r, n, Exchange::Binance);
    lemma_stats_of_first(t, r, n, Exchange::Bybit);
    assert(t.push(r)[n] == r);
    assert(t.push(r).len() == n + 1);
}

/// Without trades all of the summary is zero.
pub proof fn law_no_trades(s: TradeSummary)
    requires
        summarises(s, Seq::empty()),
    ensures
        s.total_trades == 0,
        s.closed_trades == 0,
        s.open_trades == 0,
        s.winning_trades == 0,
        s.losing_trades == 0,
        s.win_rate == 0,
        s.total_pnl_net == 0,
        s.total_pnl_gross == 0,
        s.total_fees == 0,
        s.avg_spread_captured == 0,
        s.best_trade_pnl == 0,
        s.worst_trade_pnl == 0,
        s.binance.trades_as_buy == 0,
        s.binance.trades_as_sell == 0,
        s.binance.total_fees_paid == 0,
        s.binance.total_pnl_contribution == 0,
        s.bybit.trades_as_buy == 0,
        s.bybit.trades_as_sell == 0,
        s.bybit.total_fees_paid == 0,
        s.bybit.total_pnl_contribution == 0,
{
}

/// The entry spreads of the closing trades, added up. A record of an older form holds
/// no entry spread, and the spread before the trade stands for it.
pub open spec fn spreads(t: Seq<TradeRecord>) -> int
    decreases t.len(),
{
    if t.len() == 0 {
        0
    } else {
        let r = t.last();
        spreads(t.drop_last()) + (if r.trade_type != TradeType::Close {
            0int
        } else if r.entry_spread is Some {
            r.entry_spread->Some_0 as int
        } else {
            r.spread_before as int
        })
    }
}

proof fn lemma_spreads(t: Seq<TradeRecord>)
    ensures
        spreads(t) == closed_sum(t, t.len() as int, spread_of()),
    decreases t.len(),
{
    if t.len() > 0 {
        lemma_spreads(t.drop_last());
        assert(t.drop_last().push(t.last()) =~= t);
        lemma_sum_of_first(t.drop_last(), t.last(), t.len() - 1, spread_of());
    }
}

/// Every trade that is closed was won or lost. The rate of the won ones is their part
/// of the closed ones, and the mean entry spread is that of the closed trades; both
/// are rounded down.
pub proof fn law_rates(t: Seq<TradeRecord>, s: TradeSummary)
    requires
        summarises(s, t),
        s.closed_trades > 0,
    ensures
        s.winning_trades + s.losing_trades == s.closed_trades,
        is_quotient(
            s.win_rate as int,
            s.winning_trades * 10_000_000_000,
            s.closed_trades as int,
        ),
        0 <= s.win_rate <= 10_000_000_000,
        is_quotient(s.avg_spread_captured as int, spreads(t), s.closed_trades as int),
{
    let closed = s.closed_trades as int;
    let won = s.winning_trades as int;
    lemma_spreads(t);
    if t.len() > 0 {
        lemma_counts_of_first(t, t[0], t.len() as int);
    }
    lemma_quotient(won * 10_000_000_000, closed);
    lemma_quotient(spreads(t), closed);
    assert(0 <= won * 10_000_000_000 / closed <= 10_000_000_000) by (nonlinear_arith)
        requires
            0 <= won <= closed,
            closed > 0,
    ;
}

} // verus!
