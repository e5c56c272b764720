//! What the engine keeps from trade to trade, and what one pass over it finds.
use crate::config::DynamicSpreadConfig;
use crate::live_trading::pass::{DueClose, Look};
use crate::live_trading::close::{close_step, retry_delay, review_begun, CloseStep};
use crate::live_trading::scan::{prices_enabled, trade_noted, Scanner};
use crate::live_trading::startup::history_restored;
use crate::live_trading::{
    balances_refreshed, fresh_balance, newest_trades, position_unrealized, LiveTradingEngine,
    OpenLeg, OpenPosition,
};
use crate::price_store::{Exchange, ExchangeStatus, PriceStore};
use crate::trade_journal::{TradeRecord, TradeSummary};
use vstd::prelude::*;

verus! {

/// The trade that was noted last stands last. Below the limit nothing is lost; at the
/// limit the oldest goes, and every other moves up by one.
pub proof fn law_recent_trades(s: Seq<TradeRecord>, r: TradeRecord, limit: int)
    requires
        0 <= s.len() <= limit,
        limit > 0,
    ensures
        ({
            let t = newest_trades(s.push(r), limit);
            &&& 0 < t.len() <= limit
            &&& t[t.len() - 1] == r
            &&& s.len() < limit ==> t.len() == s.len() + 1 && forall|i: int|
                0 <= i < s.len() ==> #[trigger] t[i] == s[i]
            &&& s.len() == limit ==> t.len() == limit && forall|i: int|
                0 <= i < limit - 1 ==> #[trigger] t[i] == s[i + 1]
        }),
{
}

/// A balance that the private feed pushed counts where it is positive; one that was
/// read from the exchange counts where none was pushed; without either the old one
/// stays.
pub proof fn law_balance_after_refresh(current: i64, live: i64, read: i64)
    ensures
        live > 0 ==> fresh_balance(current, live, None) == live && fresh_balance(
            current,
            live,
            Some(read),
        ) == live,
        live <= 0 ==> fresh_balance(current, live, None) == current && fresh_balance(
            current,
            live,
            Some(read),
        ) == read,
{
}

/// A coin cools down from its last trade until the cooldown has passed, to the
/// nanosecond, and not without a trade.
pub proof fn law_cooldown(e: LiveTradingEngine, coin: Seq<char>, now_ns: int)
    requires
        e.params.trade_cooldown_secs >= 0,
    ensures
        !e.last_trade_time@.contains_key(coin) ==> !e.cooling(coin, now_ns),
        e.last_trade_time@.contains_key(coin) && now_ns >= e.last_trade_time@[coin] ==> (e.cooling(
            coin,
            now_ns,
        ) <==> now_ns < e.last_trade_time@[coin] + e.params.trade_cooldown_secs * 1_000_000_000),
        e.last_trade_time@.contains_key(coin) && now_ns < e.last_trade_time@[coin] ==> (e.cooling(
            coin,
            now_ns,
        ) || e.params.trade_cooldown_secs == 0),
{
}

/// The seconds that are left of a cooldown cover what is left of it, and one second
/// less would not. Once it is over none are left.
pub proof fn law_cooldown_left(e: LiveTradingEngine, coin: Seq<char>, now_ns: int)
    requires
        e.last_trade_time@.contains_key(coin),
        now_ns >= e.last_trade_time@[coin],
        e.params.trade_cooldown_secs >= 0,
    ensures
        ({
            let end = e.last_trade_time@[coin] + e.params.trade_cooldown_secs * 1_000_000_000;
            let left = e.cooldown_left(coin, now_ns);
            &&& left is Some <==> now_ns < end
            &&& left is Some ==> (left->Some_0 - 1) * 1_000_000_000 < end - now_ns <= left->Some_0
                * 1_000_000_000
        }),
{
}

/// A position counts at the price of the exchange that each of its legs is on, or at
/// its entry price where that exchange has none; one whose coin is unknown counts
/// nothing.
pub proof fn law_position_is_valued_by_leg(p: OpenPosition, store: PriceStore)
    requires
        p.buy_exchange != p.sell_exchange,
    ensures
        !store@.contains_key(p.coin@) ==> position_unrealized(p, store) == 0,
        store@.contains_key(p.coin@) ==> ({
            let on_binance = store@[p.coin@].binance;
            let on_bybit = store@[p.coin@].bybit;
            let (bought, sold) = if p.buy_exchange == Exchange::Binance {
                (on_binance, on_bybit)
            } else {
                (on_bybit, on_binance)
            };
            &&& bought is Some && sold is Some ==> position_unrealized(p, store) == p.unrealized(
                bought->Some_0 as int,
                sold->Some_0 as int,
            )
            &&& bought is None && sold is Some ==> position_unrealized(p, store) == p.unrealized(
                p.entry_buy_price as int,
                sold->Some_0 as int,
            )
            &&& bought is Some && sold is None ==> position_unrealized(p, store) == p.unrealized(
                bought->Some_0 as int,
                p.entry_sell_price as int,
            )
            &&& bought is None && sold is None ==> position_unrealized(p, store) == p.unrealized(
                p.entry_buy_price as int,
                p.entry_sell_price as int,
            )
        }),
{
}

/// The positions count together what each counts: one more adds its own.
pub proof fn law_unrealized_adds_up(
    e: LiveTradingEngine,
    more: LiveTradingEngine,
    p: OpenPosition,
    store: PriceStore,
)
    requires
        more.open_positions@ == e.open_positions@.push(p),
    ensures
        e.open_positions@.len() == 0 ==> e.unrealized_sum(store, 0) == 0,
        more.unrealized_sum(store, more.open_positions@.len() as int) == e.unrealized_sum(
            store,
            e.open_positions@.len() as int,
        ) + position_unrealized(p, store),
{
    lemma_sum_of_first(e, more, p, store, e.open_positions@.len() as int);
}

proof fn lemma_sum_of_first(
    e: LiveTradingEngine,
    more: LiveTradingEngine,
    p: OpenPosition,
    store: PriceStore,
    n: int,
)
    requires
        more.open_positions@ == e.open_positions@.push(p),
        0 <= n <= e.open_positions@.len(),
    ensures
        more.unrealized_sum(store, n) == e.unrealized_sum(store, n),
    decreases n,
{
    if n > 0 {
        lemma_sum_of_first(e, more, p, store, n - 1);
    }
}

/// What is decided of a position depends on what is seen of its coin alone: without a
/// look it is left alone; near funding, and only then, it is forced closed where both
/// prices are seen; it is closed for its spread only where both prices are seen.
pub proof fn law_look_decides(
    sc: Scanner,
    p: OpenPosition,
    look: Option<Look>,
    e: LiveTradingEngine,
    now_ns: i64,
    config: DynamicSpreadConfig,
)
    requires
        p.buy_exchange != p.sell_exchange,
    ensures
        ({
            let r = sc.signal_at(p, look, e.params, now_ns, config);
            &&& look is None ==> r.close is None && !r.force
            &&& look is Some ==> {
                let l = look->Some_0;
                &&& r.force <==> l.near_funding && l.binance is Some && l.bybit is Some
                    && p.leg_left is None
                &&& r.close is Some ==> {
                    let (from, to) = if p.buy_exchange == Exchange::Binance {
                        (l.binance, l.bybit)
                    } else {
                        (l.bybit, l.binance)
                    };
                    &&& from is Some && from->Some_0 > 0 && to is Some && to->Some_0 > 0
                    &&& super::amounts::is_percentage(
                        r.close->Some_0.0 as int,
                        from->Some_0 as int,
                        to->Some_0 as int,
                    )
                }
            }
        }),
{
    if let Some(l) = look {
        super::closing::law_funding_pause_closes(
            sc,
            p,
            l.prices,
            l.binance,
            l.bybit,
            l.near_funding,
            e.params,
            now_ns as int,
            config,
        );
        if sc.signal_at(p, look, e.params, now_ns, config).close is Some {
            let (from, to) = if p.buy_exchange == Exchange::Binance {
                (l.binance->Some_0, l.bybit->Some_0)
            } else {
                (l.bybit->Some_0, l.binance->Some_0)
            };
            super::amounts::law_percentage(from as int, to as int, to as int);
            crate::fixed::lemma_quotient_fits((to - from) * 10_000_000_000, from as int);
        }
    }
}

/// Whether a place stands among places.
pub open spec fn among(places: Seq<int>, k: int) -> bool {
    exists|j: int| 0 <= j < places.len() && #[trigger] places[j] == k
}

proof fn lemma_due_places(
    sc: Scanner,
    e: LiveTradingEngine,
    looks: Seq<Option<Look>>,
    now_ns: i64,
    config: DynamicSpreadConfig,
    n: int,
)
    requires
        0 <= n,
    ensures
        ({
            let d = sc.due_places(e, looks, now_ns, config, n);
            let f = sc.forced_places(e, looks, now_ns, config, n);
            &&& forall|j: int|
                0 <= j < d.len() ==> 0 <= #[trigger] d[j] < n && sc.signal_at(
                    e.open_positions@[d[j]],
                    looks[d[j]],
                    e.params,
                    now_ns,
                    config,
                ).close is Some
            &&& forall|i: int, j: int| 0 <= i < j < d.len() ==> #[trigger] d[i] < #[trigger] d[j]
            &&& forall|k: int|
                0 <= k < n && (#[trigger] sc.signal_at(
                    e.open_positions@[k],
                    looks[k],
                    e.params,
                    now_ns,
                    config,
                )).close is Some ==> among(d, k)
            &&& forall|j: int|
                0 <= j < f.len() ==> 0 <= #[trigger] f[j] < n && sc.signal_at(
                    e.open_positions@[f[j]],
                    looks[f[j]],
                    e.params,
                    now_ns,
                    config,
                ).force
            &&& forall|i: int, j: int| 0 <= i < j < f.len() ==> #[trigger] f[i] < #[trigger] f[j]
            &&& forall|k: int|
                0 <= k < n && (#[trigger] sc.signal_at(
                    e.open_positions@[k],
                    looks[k],
                    e.params,
                    now_ns,
                    config,
                )).force ==> among(f, k)
        }),
    decreases n,
{
    if n > 0 {
        lemma_due_places(sc, e, looks, now_ns, config, n - 1);
        let d0 = sc.due_places(e, looks, now_ns, config, n - 1);
        let d = sc.due_places(e, looks, now_ns, config, n);
        let f0 = sc.forced_places(e, looks, now_ns, config, n - 1);
        let f = sc.forced_places(e, looks, now_ns, config, n);
        let last = sc.signal_at(
            e.open_positions@[n - 1],
            looks[n - 1],
            e.params,
            now_ns,
            config,
        );
        assert forall|k: int|
            0 <= k < n && (#[trigger] sc.signal_at(
                e.open_positions@[k],
                looks[k],
                e.params,
                now_ns,
                config,
            )).close is Some implies among(d, k) by {
            if k < n - 1 {
                assert(among(d0, k));
                let j = choose|j: int| 0 <= j < d0.len() && #[trigger] d0[j] == k;
                assert(d[j] == k);
            } else {
                assert(d[d.len() - 1] == k);
            }
        }
        assert forall|k: int|
            0 <= k < n && (#[trigger] sc.signal_at(
                e.open_positions@[k],
                looks[k],
                e.params,
                now_ns,
                config,
            )).force implies among(f, k) by {
            if k < n - 1 {
                assert(among(f0, k));
                let j = choose|j: int| 0 <= j < f0.len() && #[trigger] f0[j] == k;
                assert(f[j] == k);
            } else {
                assert(f[f.len() - 1] == k);
            }
        }
    }
}

/// A pass misses no position: each that is to be closed for its spread is listed with
/// that spread, and each that funding forces closed is listed too, whatever becomes of
/// the others.
pub proof fn law_pass_misses_none(
    sc: Scanner,
    e: LiveTradingEngine,
    looks: Seq<Option<Look>>,
    now_ns: i64,
    config: DynamicSpreadConfig,
    due: Seq<DueClose>,
    forced: Seq<String>,
    k: int,
)
    requires
        looks.len() == e.open_positions@.len(),
        sc.found(e, looks, now_ns, config, looks.len() as int, due, forced),
        0 <= k < looks.len(),
    ensures
        ({
            let p = e.open_positions@[k];
            let r = sc.signal_at(p, looks[k], e.params, now_ns, config);
            &&& r.close is Some ==> exists|i: int|
                0 <= i < due.len() && (#[trigger] due[i]).coin@ == p.coin@ && r.close == Some(
                    (due[i].spread, due[i].dynamic_exit),
                )
            &&& r.force ==> exists|i: int|
                0 <= i < forced.len() && (#[trigger] forced[i])@ == p.coin@
        }),
{
    let n = looks.len() as int;
    lemma_due_places(sc, e, looks, now_ns, config, n);
    let d = sc.due_places(e, looks, now_ns, config, n);
    let f = sc.forced_places(e, looks, now_ns, config, n);
    let p = e.open_positions@[k];
    let r = sc.signal_at(p, looks[k], e.params, now_ns, config);
    if r.close is Some {
        assert(among(d, k));
        let j = choose|j: int| 0 <= j < d.len() && #[trigger] d[j] == k;
        assert(due[j].coin@ == p.coin@);
    }
    if r.force {
        assert(among(f, k));
        let j = choose|j: int| 0 <= j < f.len() && #[trigger] f[j] == k;
        assert(forced[j]@ == p.coin@);
    }
}

/// A pass lists no position twice and none that is not to be closed: what it lists
/// belongs to positions at places that grow from one to the next.
pub proof fn law_pass_lists_each_once(
    sc: Scanner,
    e: LiveTradingEngine,
    looks: Seq<Option<Look>>,
    now_ns: i64,
    config: DynamicSpreadConfig,
    due: Seq<DueClose>,
    forced: Seq<String>,
) -> (r: (Seq<int>, Seq<int>))
    requires
        looks.len() == e.open_positions@.len(),
        sc.found(e, looks, now_ns, config, looks.len() as int, due, forced),
    ensures
        r.0.len() == due.len(),
        r.1.len() == forced.len(),
        forall|i: int, j: int| 0 <= i < j < r.0.len() ==> #[trigger] r.0[i] < #[trigger] r.0[j],
        forall|i: int, j: int| 0 <= i < j < r.1.len() ==> #[trigger] r.1[i] < #[trigger] r.1[j],
        forall|i: int|
            0 <= i < due.len() ==> {
                let k = #[trigger] r.0[i];
                &&& 0 <= k < looks.len()
                &&& due[i].coin@ == e.open_positions@[k].coin@
                &&& sc.signal_at(
                    e.open_positions@[k],
                    looks[k],
                    e.params,
                    now_ns,
                    config,
                ).close is Some
            },
        forall|i: int|
            0 <= i < forced.len() ==> {
                let k = #[trigger] r.1[i];
                &&& 0 <= k < looks.len()
                &&& forced[i]@ == e.open_positions@[k].coin@
                &&& sc.signal_at(
                    e.open_positions@[k],
                    looks[k],
                    e.params,
                    now_ns,
                    config,
                ).force
            },
{
    let n = looks.len() as int;
    lemma_due_places(sc, e, looks, now_ns, config, n);
    let d = sc.due_places(e, looks, now_ns, config, n);
    let f = sc.forced_places(e, looks, now_ns, config, n);
    assert forall|i: int| 0 <= i < due.len() implies ({
        let k = #[trigger] d[i];
        &&& 0 <= k < looks.len()
        &&& due[i].coin@ == e.open_positions@[k].coin@
    }) by {
        assert(due[i].coin@ == e.open_positions@[d[i]].coin@);
    }
    (d, f)
}

/// Each balance is refreshed from its own exchange: what one pushes or reads never
/// reaches the other, and nothing else of the engine changes.
pub proof fn law_balances_refreshed(
    before: LiveTradingEngine,
    after: LiveTradingEngine,
    binance_live: i64,
    binance_read: Option<i64>,
    bybit_live: i64,
    bybit_read: Option<i64>,
)
    requires
        balances_refreshed(
            before,
            after,
            binance_live,
            binance_read,
            bybit_live,
            bybit_read,
        ),
    ensures
        binance_live > 0 ==> after.binance_balance == binance_live,
        binance_live <= 0 && binance_read is Some ==> after.binance_balance
            == binance_read->Some_0,
        binance_live <= 0 && binance_read is None ==> after.binance_balance
            == before.binance_balance,
        bybit_live > 0 ==> after.bybit_balance == bybit_live,
        bybit_live <= 0 && bybit_read is Some ==> after.bybit_balance == bybit_read->Some_0,
        bybit_live <= 0 && bybit_read is None ==> after.bybit_balance == before.bybit_balance,
        after.open_positions == before.open_positions,
        after.total_pnl == before.total_pnl,
        after.emergency_halt == before.emergency_halt,
{
}

/// A forced close waits until the position was held for ten seconds, to the nanosecond;
/// without a position there is none.
pub proof fn law_forced_close_waits(e: LiveTradingEngine, coin: Seq<char>, now_ns: int, k: int)
    requires
        crate::live_trading::one_per_coin(e.open_positions@),
        0 <= k < e.open_positions@.len(),
        e.open_positions@[k].coin@ == coin,
    ensures
        now_ns >= e.open_positions@[k].open_time_ns ==> (e.force_due(coin, now_ns) <==> now_ns
            - e.open_positions@[k].open_time_ns >= 10_000_000_000),
        now_ns < e.open_positions@[k].open_time_ns ==> !e.force_due(coin, now_ns),
{
    super::booking::lemma_found(e.open_positions@, coin, k);
}

/// Without a position on a coin none is closed by force.
pub proof fn law_no_forced_close(e: LiveTradingEngine, coin: Seq<char>, now_ns: int)
    requires
        forall|i: int|
            0 <= i < e.open_positions@.len() ==> (#[trigger] e.open_positions@[i]).coin@ != coin,
    ensures
        !e.force_due(coin, now_ns),
{
    crate::live_trading::lemma_place_of(e.open_positions@, coin, 0);
}

/// A trade that was opened counts once; the limit of the session is reached where it has
/// one and as many trades were taken. No switch changes.
pub proof fn law_trade_counts(before: ExchangeStatus, after: ExchangeStatus, reached: bool)
    requires
        trade_noted(before, after, reached),
        before.session_trades_taken < u32::MAX,
    ensures
        after.session_trades_taken == before.session_trades_taken + 1,
        after.trade_limit == before.trade_limit,
        after.trading_enabled == before.trading_enabled,
        after.binance_enabled == before.binance_enabled,
        after.bybit_enabled == before.bybit_enabled,
        before.trade_limit == 0 ==> !reached,
        before.trade_limit > 0 ==> (reached <==> before.session_trades_taken + 1
            >= before.trade_limit),
{
}

/// An exchange that is switched off has no price, whatever the other does.
pub proof fn law_enabled_prices(s: ExchangeStatus, prices: (Option<u64>, Option<u64>))
    ensures
        s.binance_enabled ==> prices_enabled(s, prices).0 == prices.0,
        !s.binance_enabled ==> prices_enabled(s, prices).0 is None,
        s.bybit_enabled ==> prices_enabled(s, prices).1 == prices.1,
        !s.bybit_enabled ==> prices_enabled(s, prices).1 is None,
{
}

/// A closing trade is done where both legs are; where one is, the other is tried again
/// and never the one that is; where none is, the position stays open.
pub proof fn law_closing_step(sold: bool, bought: bool)
    ensures
        close_step(sold, bought) == CloseStep::Done <==> sold && bought,
        close_step(sold, bought) == CloseStep::RetryBuy <==> sold && !bought,
        close_step(sold, bought) == CloseStep::RetrySell <==> bought && !sold,
        close_step(sold, bought) == CloseStep::KeepOpen <==> !sold && !bought,
{
}

/// The leg that is left is tried three times, after a pause that grows by three tenths
/// of a second from one to the next.
pub proof fn law_retry_pauses(attempt: u32)
    ensures
        retry_delay(attempt) is Some <==> attempt == 1 || attempt == 2 || attempt == 3,
        retry_delay(1) == Some(300u64),
        1 <= attempt < 3 ==> retry_delay((attempt + 1) as u32)->Some_0 == retry_delay(
            attempt,
        )->Some_0 + 300,
{
}

/// A position that is left for review stays where it is, marked with the leg that is
/// left; the other positions, the balances and the books stay as they are.
pub proof fn law_left_for_review(
    before: LiveTradingEngine,
    after: LiveTradingEngine,
    coin: Seq<char>,
    left: OpenLeg,
    now_ns: i64,
    k: int,
)
    requires
        crate::live_trading::one_per_coin(before.open_positions@),
        review_begun(before, after, coin, left, now_ns),
        0 <= k < before.open_positions@.len(),
    ensures
        after.open_positions@.len() == before.open_positions@.len(),
        before.open_positions@[k].coin@ != coin ==> after.open_positions@[k]
            == before.open_positions@[k],
        before.open_positions@[k].coin@ == coin ==> {
            let p = before.open_positions@[k];
            let q = after.open_positions@[k];
            &&& q.leg_left == Some(left)
            &&& q.coin@ == coin
            &&& q.buy_exchange == p.buy_exchange
            &&& q.sell_exchange == p.sell_exchange
            &&& q.buy_filled_qty == p.buy_filled_qty
            &&& q.sell_filled_qty == p.sell_filled_qty
            &&& q.entry_buy_price == p.entry_buy_price
            &&& q.entry_sell_price == p.entry_sell_price
        },
        after.last_trade_time@.contains_key(coin),
        after.last_trade_time@[coin] == now_ns,
        after.total_pnl == before.total_pnl,
        after.closed_count == before.closed_count,
        after.binance_balance == before.binance_balance,
        after.bybit_balance == before.bybit_balance,
{
    crate::live_trading::lemma_place_of(before.open_positions@, coin, 0);
    if before.open_positions@[k].coin@ == coin {
        super::booking::lemma_found(before.open_positions@, coin, k);
    }
}

/// The trades of earlier sessions count as if they had been made in this one: every
/// trade counts, the profit and the fees are those of all of them, and the newest are
/// the recent ones. What is open stays.
pub proof fn law_history_counts(
    before: LiveTradingEngine,
    after: LiveTradingEngine,
    trades: Seq<TradeRecord>,
    s: TradeSummary,
)
    requires
        history_restored(before, after, trades, s),
        trades.len() > 0,
    ensures
        after.trade_count == trades.len(),
        after.total_pnl == s.total_pnl_net,
        after.total_fees_paid == s.total_fees,
        after.winning_trades == s.winning_trades,
        after.losing_trades == s.losing_trades,
        after.closed_count == s.closed_trades,
        after.open_positions == before.open_positions,
        after.binance_balance == before.binance_balance,
        after.bybit_balance == before.bybit_balance,
        before.max_recent > 0 ==> after.recent_trades@.len() > 0 && after.recent_trades@.last()
            == trades.last(),
{
}

/// Without trades of earlier sessions the engine stays as it is.
pub proof fn law_no_history(
    before: LiveTradingEngine,
    after: LiveTradingEngine,
    s: TradeSummary,
)
    requires
        history_restored(before, after, Seq::empty(), s),
    ensures
        after == before,
{
}

} // verus!
