//! The trading engine: its state, its positions and the sizing of its orders.
//! The decisions to open and to close positions, and the scan of the market,
//! stand in the modules below.
pub mod close;
pub mod open;
pub mod pass;
pub mod reasons;
pub mod runs;
pub mod scan;
pub mod startup;

use crate::clock::{now_nanos, whole_seconds};
use crate::config::{TradingParams, FIXED_LEVERAGE, MIN_BALANCE_USDT};
use crate::exchanges::exchange_info::{
    law_round_down, round_down_to, round_up_to, ExchangeInfoCache, SymbolInfo,
    DEFAULT_MIN_NOTIONAL,
};
use crate::fixed::{floor_div, lemma_quotient_fits, MAX_AMOUNT, SCALE};
use crate::price_store::{get_price, lists_entries, Exchange, PriceStore};
use crate::text::same_text;
use crate::trade_journal::TradeRecord;
use std::collections::VecDeque;
use vstd::hash_map::StringHashMap;
use vstd::prelude::*;

verus! {

/// A leg of a position.
#[derive(Debug, Clone, Copy, PartialEq, Eq, Structural)]
pub enum OpenLeg {
    /// What was bought.
    Long,
    /// What was sold.
    Short,
}

/// An open arbitrage position: bought on one exchange, sold on the other,
/// waiting for the spread to converge.
#[derive(Debug, Clone)]
pub struct OpenPosition {
    pub coin: String,
    /// Exchange that was cheap at entry.
    pub buy_exchange: Exchange,
    /// Exchange that was dear at entry.
    pub sell_exchange: Exchange,
    pub entry_buy_price: u64,
    pub entry_sell_price: u64,
    pub buy_filled_qty: u64,
    pub sell_filled_qty: u64,
    /// USDT value of the fills.
    pub buy_quote_value: u128,
    pub sell_quote_value: u128,
    pub entry_buy_commission: u64,
    pub entry_sell_commission: u64,
    pub buy_order_id: String,
    pub sell_order_id: String,
    /// Executed spread % at entry.
    pub entry_spread: i128,
    /// Epoch nanoseconds.
    pub open_time_ns: i64,
    pub entry_buy_book_bid: u64,
    pub entry_buy_book_ask: u64,
    pub entry_buy_book_bid_qty: Option<u64>,
    pub entry_buy_book_ask_qty: Option<u64>,
    pub entry_sell_book_bid: u64,
    pub entry_sell_book_ask: u64,
    pub entry_sell_book_bid_qty: Option<u64>,
    pub entry_sell_book_ask_qty: Option<u64>,
    pub funding_hours: u32,
    /// The leg that is still open, where the other is closed and this one could not
    /// be. The position is then left for manual review, and nothing more is ordered
    /// for it.
    pub leg_left: Option<OpenLeg>,
}

/// Profit of a long and a short leg before fees, in units, rounded down.
pub open spec fn gross_profit(
    entry_buy: int,
    buy_qty: int,
    exit_sell: int,
    entry_sell: int,
    sell_qty: int,
    exit_buy: int,
) -> int {
    ((exit_sell - entry_buy) * buy_qty + (entry_sell - exit_buy) * sell_qty) / (SCALE as int)
}

/// Computes the profit of a long and a short leg before fees.
pub(crate) fn compute_gross_profit(
    entry_buy: u64,
    buy_qty: u64,
    exit_sell: u64,
    entry_sell: u64,
    sell_qty: u64,
    exit_buy: u64,
) -> (p: i128)
    requires
        entry_buy <= MAX_AMOUNT,
        buy_qty <= MAX_AMOUNT,
        exit_sell <= MAX_AMOUNT,
        entry_sell <= MAX_AMOUNT,
        sell_qty <= MAX_AMOUNT,
        exit_buy <= MAX_AMOUNT,
    ensures
        p == gross_profit(
            entry_buy as int,
            buy_qty as int,
            exit_sell as int,
            entry_sell as int,
            sell_qty as int,
            exit_buy as int,
        ),
        -30_000_000_000_000_000_000_000_000_000 <= p <= 30_000_000_000_000_000_000_000_000_000,
{
    let long: i128 = exit_sell as i128 - entry_buy as i128;
    let short: i128 = entry_sell as i128 - exit_buy as i128;
    proof {
        lemma_product_bound(long as int, buy_qty as int);
        lemma_product_bound(short as int, sell_qty as int);
        let total = long * buy_qty + short * sell_qty;
        assert(-30_000_000_000_000_000_000_000_000_000 <= total / (SCALE as int)
            <= 30_000_000_000_000_000_000_000_000_000) by (nonlinear_arith)
            requires
                -2_000_000_000_000_000_000_000_000_000_000_000_000 <= total
                    <= 2_000_000_000_000_000_000_000_000_000_000_000_000,
                SCALE == 100_000_000,
        ;
    }
    floor_div(long * buy_qty as i128 + short * sell_qty as i128, SCALE as i128)
}

proof fn lemma_product_bound(d: int, q: int)
    requires
        -MAX_AMOUNT <= d <= MAX_AMOUNT,
        0 <= q <= MAX_AMOUNT,
    ensures
        -1_000_000_000_000_000_000_000_000_000_000_000_000 <= d * q
            <= 1_000_000_000_000_000_000_000_000_000_000_000_000,
{
    assert(-1_000_000_000_000_000_000_000_000_000_000_000_000 <= d * q
        <= 1_000_000_000_000_000_000_000_000_000_000_000_000) by (nonlinear_arith)
        requires
            -1_000_000_000_000_000_000 <= d <= 1_000_000_000_000_000_000,
            0 <= q <= 1_000_000_000_000_000_000,
    ;
}

impl OpenPosition {
    /// Prices, quantities and commissions are in range.
    pub open spec fn wf(&self) -> bool {
        &&& self.entry_buy_price <= MAX_AMOUNT
        &&& self.entry_sell_price <= MAX_AMOUNT
        &&& self.buy_filled_qty <= MAX_AMOUNT
        &&& self.sell_filled_qty <= MAX_AMOUNT
        &&& self.entry_buy_commission <= MAX_AMOUNT
        &&& self.entry_sell_commission <= MAX_AMOUNT
    }

    /// Profit at current prices after the entry fees.
    pub open spec fn unrealized(&self, current_buy_price: int, current_sell_price: int) -> int {
        gross_profit(
            self.entry_buy_price as int,
            self.buy_filled_qty as int,
            current_buy_price,
            self.entry_sell_price as int,
            self.sell_filled_qty as int,
            current_sell_price,
        ) - (self.entry_buy_commission + self.entry_sell_commission)
    }

    /// Profit at current prices after the entry fees.
    pub fn unrealized_pnl(&self, current_buy_price: u64, current_sell_price: u64) -> (p: i128)
        requires
            self.wf(),
            current_buy_price <= MAX_AMOUNT,
            current_sell_price <= MAX_AMOUNT,
        ensures
            p == self.unrealized(current_buy_price as int, current_sell_price as int),
            -40_000_000_000_000_000_000_000_000_000 <= p <= 40_000_000_000_000_000_000_000_000_000,
    {
        compute_gross_profit(
            self.entry_buy_price,
            self.buy_filled_qty,
            current_buy_price,
            self.entry_sell_price,
            self.sell_filled_qty,
            current_sell_price,
        ) - (self.entry_buy_commission as i128 + self.entry_sell_commission as i128)
    }
}

/// The place of the first position on a coin from `i` on.
pub open spec fn place_of(ps: Seq<OpenPosition>, coin: Seq<char>, i: int) -> Option<int>
    decreases ps.len() - i,
{
    if i < 0 || i >= ps.len() {
        None
    } else if ps[i].coin@ == coin {
        Some(i)
    } else {
        place_of(ps, coin, i + 1)
    }
}

/// Whether there is a position on a coin.
pub open spec fn holds(ps: Seq<OpenPosition>, coin: Seq<char>) -> bool {
    place_of(ps, coin, 0) is Some
}

/// Whether no coin has two positions.
pub open spec fn one_per_coin(ps: Seq<OpenPosition>) -> bool {
    forall|i: int, j: int|
        0 <= i < j < ps.len() ==> (#[trigger] ps[i]).coin@ != (#[trigger] ps[j]).coin@
}

/// Where a position is found, it is on the coin; where none is, there is none.
pub proof fn lemma_place_of(ps: Seq<OpenPosition>, coin: Seq<char>, i: int)
    requires
        0 <= i <= ps.len(),
    ensures
        match place_of(ps, coin, i) {
            Some(k) => i <= k < ps.len() && ps[k].coin@ == coin,
            None => forall|j: int| i <= j < ps.len() ==> (#[trigger] ps[j]).coin@ != coin,
        },
    decreases ps.len() - i,
{
    if i < ps.len() && ps[i].coin@ != coin {
        lemma_place_of(ps, coin, i + 1);
    }
}

/// The quantity step that is safe at a price: whole coins for very cheap ones,
/// down to a ten-thousandth for very dear ones.
pub open spec fn heuristic_step(price: int) -> int {
    if price < 20_000_000 {
        100_000_000
    } else if price < 200_000_000 {
        10_000_000
    } else if price < 5_000_000_000 {
        1_000_000
    } else if price < 100_000_000_000 {
        100_000
    } else {
        10_000
    }
}

/// The trading rules of a symbol on an exchange.
pub open spec fn rules_for(
    info: ExchangeInfoCache,
    exchange: Exchange,
    symbol: Seq<char>,
) -> Option<SymbolInfo> {
    match exchange {
        Exchange::Binance => info.binance@.get(symbol),
        Exchange::Bybit => info.bybit@.get(symbol),
    }
}

/// A quantity rounded down to the step of an exchange, or to the heuristic step.
pub open spec fn exact_quantity(rules: Option<SymbolInfo>, quantity: int, price: int) -> int {
    match rules {
        Some(si) => round_down_to(quantity, si.step_size as int),
        None => round_down_to(quantity, heuristic_step(price)),
    }
}

/// A limit price rounded to the tick of an exchange: up for a buy, down for a sell.
pub open spec fn exact_price(rules: Option<SymbolInfo>, price: int, is_buy: bool) -> int {
    match rules {
        Some(si) => if is_buy {
            round_up_to(price, si.tick_size as int)
        } else {
            round_down_to(price, si.tick_size as int)
        },
        None => price,
    }
}

/// The minimum notional of a symbol.
pub open spec fn minimum_notional(rules: Option<SymbolInfo>) -> int {
    match rules {
        Some(si) => si.min_notional as int,
        None => DEFAULT_MIN_NOTIONAL as int,
    }
}

/// Smallest trade size: five USDT.
pub const MIN_TRADE_USDT: u64 = 500_000_000;

/// How many recent trades are kept in memory.
pub const MAX_RECENT_TRADES: usize = 100;

/// The trading engine.
pub struct LiveTradingEngine {
    pub params: TradingParams,
    pub trade_count: u64,
    /// Net profit of the closed trades.
    pub total_pnl: i128,
    pub binance_balance: i64,
    pub bybit_balance: i64,
    pub total_fees_paid: i128,
    /// Epoch nanoseconds of the last trade of each coin.
    pub last_trade_time: StringHashMap<i64>,
    /// Open positions, at most one per coin.
    pub open_positions: Vec<OpenPosition>,
    /// Recent trades, oldest first.
    pub recent_trades: VecDeque<TradeRecord>,
    pub max_recent: usize,
    pub log_path: String,
    pub closed_count: u64,
    pub winning_trades: u64,
    pub losing_trades: u64,
    /// Leverage last set on Binance and Bybit for each symbol.
    pub leverage_cache: StringHashMap<(u32, u32)>,
    /// Set when exchange exposure is unknown. Blocks new positions until cleared.
    pub emergency_halt: bool,
    pub exchange_info: ExchangeInfoCache,
}

impl LiveTradingEngine {
    /// At most one position per coin, all in range; every closed trade is a win
    /// or a loss; recent trades within their limit; parameters and rules valid.
    pub open spec fn wf(&self) -> bool {
        &&& self.params.wf()
        &&& self.exchange_info.wf()
        &&& one_per_coin(self.open_positions@)
        &&& forall|i: int| 0 <= i < self.open_positions@.len() ==> (
            #[trigger] self.open_positions@[i]).wf()
        &&& self.recent_trades@.len() <= self.max_recent
        &&& self.winning_trades + self.losing_trades == self.closed_count
    }

    /// Whether another trade can be accounted for: counters and totals are not
    /// at the end of their ranges.
    pub open spec fn has_room(&self) -> bool {
        &&& self.trade_count < u64::MAX
        &&& self.closed_count < u64::MAX
        &&& -100_000_000_000_000_000_000_000_000_000_000_000_000 <= self.total_pnl
            <= 100_000_000_000_000_000_000_000_000_000_000_000_000
        &&& -100_000_000_000_000_000_000_000_000_000_000_000_000 <= self.total_fees_paid
            <= 100_000_000_000_000_000_000_000_000_000_000_000_000
        &&& self.max_recent < usize::MAX
    }

    /// Whether another trade can be accounted for.
    pub fn can_account(&self) -> (r: bool)
        ensures
            r == self.has_room(),
    {
        self.trade_count < u64::MAX && self.closed_count < u64::MAX
            && -100_000_000_000_000_000_000_000_000_000_000_000_000 <= self.total_pnl
            && self.total_pnl <= 100_000_000_000_000_000_000_000_000_000_000_000_000
            && -100_000_000_000_000_000_000_000_000_000_000_000_000 <= self.total_fees_paid
            && self.total_fees_paid <= 100_000_000_000_000_000_000_000_000_000_000_000_000
            && self.max_recent < usize::MAX
    }

    /// An engine without trades, balances or positions.
    pub fn new(params: TradingParams, log_path: String, exchange_info: ExchangeInfoCache) -> (e:
        LiveTradingEngine)
        requires
            params.wf(),
            exchange_info.wf(),
        ensures
            e.wf(),
            e.has_room(),
            e.params == params,
            e.trade_count == 0,
            e.total_pnl == 0,
            e.binance_balance == 0,
            e.bybit_balance == 0,
            e.total_fees_paid == 0,
            e.last_trade_time@ == Map::<Seq<char>, i64>::empty(),
            e.open_positions@ == Seq::<OpenPosition>::empty(),
            e.recent_trades@ == Seq::<TradeRecord>::empty(),
            e.max_recent == MAX_RECENT_TRADES,
            e.log_path == log_path,
            e.closed_count == 0,
            e.winning_trades == 0,
            e.losing_trades == 0,
            e.leverage_cache@ == Map::<Seq<char>, (u32, u32)>::empty(),
            !e.emergency_halt,
            e.exchange_info == exchange_info,
    {
        LiveTradingEngine {
            params,
            trade_count: 0,
            total_pnl: 0,
            binance_balance: 0,
            bybit_balance: 0,
            total_fees_paid: 0,
            last_trade_time: StringHashMap::new(),
            open_positions: Vec::new(),
            recent_trades: VecDeque::new(),
            max_recent: MAX_RECENT_TRADES,
            log_path,
            closed_count: 0,
            winning_trades: 0,
            losing_trades: 0,
            leverage_cache: StringHashMap::new(),
            emergency_halt: false,
            exchange_info,
        }
    }

    /// Rounds a quantity down by the magnitude of the price.
    pub fn round_quantity(quantity: u64, price: u64) -> (q: u64)
        ensures
            q == round_down_to(quantity as int, heuristic_step(price as int)),
            q <= quantity,
    {
        let step: u64 = if price < 20_000_000 {
            100_000_000
        } else if price < 200_000_000 {
            10_000_000
        } else if price < 5_000_000_000 {
            1_000_000
        } else if price < 100_000_000_000 {
            100_000
        } else {
            10_000
        };
        ExchangeInfoCache::round_qty_down(quantity, step)
    }

    fn rules(&self, symbol: &str, exchange: Exchange) -> (r: Option<SymbolInfo>)
        ensures
            r == rules_for(self.exchange_info, exchange, symbol@),
    {
        match exchange {
            Exchange::Binance => self.exchange_info.get_binance(symbol),
            Exchange::Bybit => self.exchange_info.get_bybit(symbol),
        }
    }

    /// Rounds a quantity down to the step size of an exchange, by the price
    /// where it is not known.
    pub fn round_quantity_exact(
        &self,
        symbol: &str,
        exchange: Exchange,
        quantity: u64,
        price: u64,
    ) -> (q: u64)
        ensures
            q == exact_quantity(
                rules_for(self.exchange_info, exchange, symbol@),
                quantity as int,
                price as int,
            ),
            q <= quantity,
    {
        match self.rules(symbol, exchange) {
            Some(si) => ExchangeInfoCache::round_qty_down(quantity, si.step_size),
            None => Self::round_quantity(quantity, price),
        }
    }

    /// Rounds a limit price to the tick size of an exchange: up for a buy, down
    /// for a sell.
    pub fn round_price(&self, symbol: &str, exchange: Exchange, price: u64, is_buy: bool) -> (p:
        u64)
        requires
            self.exchange_info.wf(),
            price <= 2 * MAX_AMOUNT,
        ensures
            p == exact_price(
                rules_for(self.exchange_info, exchange, symbol@),
                price as int,
                is_buy,
            ),
            p <= 3 * MAX_AMOUNT,
    {
        match self.rules(symbol, exchange) {
            Some(si) => {
                if is_buy {
                    ExchangeInfoCache::round_price_up(price, si.tick_size)
                } else {
                    ExchangeInfoCache::round_price_down(price, si.tick_size)
                }
            },
            None => price,
        }
    }

    /// The minimum notional of a symbol on an exchange.
    pub fn get_min_notional(&self, symbol: &str, exchange: Exchange) -> (n: u64)
        requires
            self.exchange_info.wf(),
        ensures
            n == minimum_notional(rules_for(self.exchange_info, exchange, symbol@)),
            n <= MAX_AMOUNT,
    {
        match self.rules(symbol, exchange) {
            Some(si) => si.min_notional,
            None => DEFAULT_MIN_NOTIONAL,
        }
    }

    /// The number of open positions.
    pub fn open_position_count(&self) -> (n: usize)
        ensures
            n == self.open_positions@.len(),
    {
        self.open_positions.len()
    }

    /// The place of the position on a coin.
    pub fn position_index(&self, coin: &str) -> (r: Option<usize>)
        ensures
            match r {
                Some(k) => place_of(self.open_positions@, coin@, 0) == Some(k as int) && k
                    < self.open_positions@.len() && self.open_positions@[k as int].coin@ == coin@,
                None => place_of(self.open_positions@, coin@, 0) is None,
            },
    {
        let mut i: usize = 0;
        while i < self.open_positions.len()
            invariant
                i <= self.open_positions@.len(),
                place_of(self.open_positions@, coin@, 0) == place_of(
                    self.open_positions@,
                    coin@,
                    i as int,
                ),
            decreases self.open_positions@.len() - i,
        {
            if same_text(self.open_positions[i].coin.as_str(), coin) {
                return Some(i);
            }
            i = i + 1;
        }
        None
    }

    /// The balance on an exchange.
    pub open spec fn balance_of(&self, exchange: Exchange) -> i64 {
        match exchange {
            Exchange::Binance => self.binance_balance,
            Exchange::Bybit => self.bybit_balance,
        }
    }

    /// The balance on an exchange.
    pub fn get_balance(&self, exchange: Exchange) -> (b: i64)
        ensures
            b == self.balance_of(exchange),
    {
        match exchange {
            Exchange::Binance => self.binance_balance,
            Exchange::Bybit => self.bybit_balance,
        }
    }

    /// The trade size that the balances allow, none where it is too small.
    pub open spec fn affordable_usdt(&self, buy: Exchange, sell: Exchange) -> Option<int> {
        let buy_balance = self.balance_of(buy);
        let sell_balance = self.balance_of(sell);
        let size = crate::fixed::min_of(
            crate::fixed::min_of(
                self.params.trade_size_usdt as int,
                buy_balance * FIXED_LEVERAGE,
            ),
            sell_balance * FIXED_LEVERAGE,
        );
        if buy_balance < MIN_BALANCE_USDT || sell_balance < MIN_BALANCE_USDT || size
            < MIN_TRADE_USDT {
            None
        } else {
            Some(size)
        }
    }

    /// Trade size and leverage, none where a balance is too low.
    pub fn calculate_trade_params(&self, buy_exchange: Exchange, sell_exchange: Exchange) -> (r:
        Option<(u64, u32)>)
        ensures
            match r {
                Some(p) => self.affordable_usdt(buy_exchange, sell_exchange) == Some(p.0 as int)
                    && p.1 == FIXED_LEVERAGE && p.0 <= self.params.trade_size_usdt,
                None => self.affordable_usdt(buy_exchange, sell_exchange) is None,
            },
    {
        let buy_balance: i64 = self.get_balance(buy_exchange);
        let sell_balance: i64 = self.get_balance(sell_exchange);
        if buy_balance < MIN_BALANCE_USDT || sell_balance < MIN_BALANCE_USDT {
            return None;
        }
        let buy_max: i128 = buy_balance as i128 * FIXED_LEVERAGE as i128;
        let sell_max: i128 = sell_balance as i128 * FIXED_LEVERAGE as i128;
        let mut size: i128 = self.params.trade_size_usdt as i128;
        if buy_max < size {
            size = buy_max;
        }
        if sell_max < size {
            size = sell_max;
        }
        if size < MIN_TRADE_USDT as i128 {
            return None;
        }
        Some((size as u64, FIXED_LEVERAGE))
    }

    /// Seconds since the last trade on a coin at a time, if there was one.
    pub open spec fn idle_secs(&self, coin: Seq<char>, now_ns: int) -> Option<int> {
        if self.last_trade_time@.contains_key(coin) {
            Some(crate::clock::seconds_between(self.last_trade_time@[coin] as int, now_ns))
        } else {
            None
        }
    }

    /// Whether a coin is in its cooldown at a time.
    pub open spec fn cooling(&self, coin: Seq<char>, now_ns: int) -> bool {
        match self.idle_secs(coin, now_ns) {
            Some(s) => s < self.params.trade_cooldown_secs,
            None => false,
        }
    }

    /// Whether a coin is in its cooldown at a time.
    pub fn is_on_cooldown_at(&self, coin: &str, now_ns: i64) -> (r: bool)
        ensures
            r == self.cooling(coin@, now_ns as int),
    {
        match self.last_trade_time.get(coin) {
            Some(last) => whole_seconds(*last, now_ns) < self.params.trade_cooldown_secs,
            None => false,
        }
    }

    /// Whether a coin is in its cooldown.
    pub fn is_on_cooldown(&self, coin: &str) -> (r: bool)
        ensures
            !self.last_trade_time@.contains_key(coin@) ==> !r,
            exists|now_ns: i64| now_ns >= 0 && r == #[trigger] self.cooling(coin@, now_ns as int),
    {
        let now_ns: i64 = now_nanos();
        self.is_on_cooldown_at(coin, now_ns)
    }

    /// Remaining cooldown of a coin at a time in seconds, if any.
    pub open spec fn cooldown_left(&self, coin: Seq<char>, now_ns: int) -> Option<int> {
        if self.cooling(coin, now_ns) {
            Some(self.params.trade_cooldown_secs - self.idle_secs(coin, now_ns)->Some_0)
        } else {
            None
        }
    }

    /// Remaining cooldown of a coin at a time, if any.
    pub fn cooldown_remaining_secs_at(&self, coin: &str, now_ns: i64) -> (r: Option<i64>)
        requires
            self.params.wf(),
        ensures
            match r {
                Some(s) => self.cooldown_left(coin@, now_ns as int) == Some(s as int),
                None => self.cooldown_left(coin@, now_ns as int) is None,
            },
    {
        match self.last_trade_time.get(coin) {
            Some(last) => {
                let elapsed: i64 = whole_seconds(*last, now_ns);
                if elapsed < self.params.trade_cooldown_secs {
                    Some(self.params.trade_cooldown_secs - elapsed)
                } else {
                    None
                }
            },
            None => None,
        }
    }

    /// Notes a trade, dropping the oldest beyond the limit.
    pub fn push_recent_trade(&mut self, record: TradeRecord)
        requires
            old(self).recent_trades@.len() <= old(self).max_recent,
            old(self).max_recent < usize::MAX,
        ensures
            final(self).recent_trades@ == newest_trades(
                old(self).recent_trades@.push(record),
                old(self).max_recent as int,
            ),
            final(self).recent_trades@.len() <= final(self).max_recent,
            *final(self) == (LiveTradingEngine {
                recent_trades: final(self).recent_trades,
                ..*old(self)
            }),
    {
        self.recent_trades.push_back(record);
        if self.recent_trades.len() > self.max_recent {
            let ghost before = self.recent_trades@;
            let _ = self.recent_trades.pop_front();
            assert(self.recent_trades@ =~= newest_trades(before, self.max_recent as int));
        }
    }

    /// Sets both balances. A balance pushed by the private feed counts where it
    /// is positive; else the one read from the exchange, where it was read; else
    /// the old one stays.
    pub fn refresh_balances(
        &mut self,
        binance_live: i64,
        binance_read: Option<i64>,
        bybit_live: i64,
        bybit_read: Option<i64>,
    )
        ensures
            balances_refreshed(
                *old(self),
                *final(self),
                binance_live,
                binance_read,
                bybit_live,
                bybit_read,
            ),
    {
        if binance_live > 0 {
            self.binance_balance = binance_live;
        } else if let Some(b) = binance_read {
            self.binance_balance = b;
        }
        if bybit_live > 0 {
            self.bybit_balance = bybit_live;
        } else if let Some(b) = bybit_read {
            self.bybit_balance = b;
        }
    }

    /// Clears the emergency halt.
    pub fn clear_halt(&mut self)
        ensures
            *final(self) == (LiveTradingEngine { emergency_halt: false, ..*old(self) }),
    {
        self.emergency_halt = false;
    }

    /// Unrealized profit of the first `n` positions at the prices of a store.
    pub open spec fn unrealized_sum(&self, store: PriceStore, n: int) -> int
        decreases n,
    {
        if n <= 0 {
            0
        } else {
            self.unrealized_sum(store, n - 1) + position_unrealized(
                self.open_positions@[n - 1],
                store,
            )
        }
    }

    /// Unrealized profit of all positions. A position counts at its entry prices
    /// where an exchange has none, and not at all where the coin is unknown.
    pub fn total_unrealized_pnl(&self, store: &PriceStore) -> (total: i128)
        requires
            self.wf(),
            self.open_positions@.len() <= 1_000_000,
            prices_in_range(*store),
        ensures
            total == self.unrealized_sum(*store, self.open_positions@.len() as int),
    {
        let mut total: i128 = 0;
        let mut i: usize = 0;
        while i < self.open_positions.len()
            invariant
                i <= self.open_positions@.len() <= 1_000_000,
                self.wf(),
                prices_in_range(*store),
                total == self.unrealized_sum(*store, i as int),
                -40_000_000_000_000_000_000_000_000_000 * i <= total
                    <= 40_000_000_000_000_000_000_000_000_000 * i,
            decreases self.open_positions@.len() - i,
        {
            let pos = &self.open_positions[i];
            assert(self.open_positions@[i as int].wf());
            if let Some(prices) = store.get(pos.coin.as_str()) {
                assert(store@.contains_key(pos.coin@));
                let buy_price: u64 = match get_price(&prices, pos.buy_exchange) {
                    Some(p) => p,
                    None => pos.entry_buy_price,
                };
                let sell_price: u64 = match get_price(&prices, pos.sell_exchange) {
                    Some(p) => p,
                    None => pos.entry_sell_price,
                };
                total = total + pos.unrealized_pnl(buy_price, sell_price);
            }
            i = i + 1;
        }
        total
    }
}

/// The balance after a refresh.
pub open spec fn fresh_balance(current: i64, live: i64, read: Option<i64>) -> i64 {
    if live > 0 {
        live
    } else {
        match read {
            Some(b) => b,
            None => current,
        }
    }
}

/// Whether both balances were refreshed, each by what its exchange pushed and by what
/// was read from it, and nothing else changed.
pub open spec fn balances_refreshed(
    before: LiveTradingEngine,
    after: LiveTradingEngine,
    binance_live: i64,
    binance_read: Option<i64>,
    bybit_live: i64,
    bybit_read: Option<i64>,
) -> bool {
    &&& after.binance_balance == fresh_balance(before.binance_balance, binance_live, binance_read)
    &&& after.bybit_balance == fresh_balance(before.bybit_balance, bybit_live, bybit_read)
    &&& after == (LiveTradingEngine {
        binance_balance: after.binance_balance,
        bybit_balance: after.bybit_balance,
        ..before
    })
}

/// The last `n` trades.
pub open spec fn newest_trades(s: Seq<TradeRecord>, n: int) -> Seq<TradeRecord> {
    if s.len() > n {
        s.subrange(s.len() - n, s.len() as int)
    } else {
        s
    }
}

/// Whether the prices of a store are in range.
pub open spec fn prices_in_range(store: PriceStore) -> bool {
    forall|k: Seq<char>| #[trigger]
        store@.contains_key(k) ==> {
            &&& store@[k].binance is Some ==> store@[k].binance->Some_0 <= MAX_AMOUNT
            &&& store@[k].bybit is Some ==> store@[k].bybit->Some_0 <= MAX_AMOUNT
        }
}

fn is_price_in_range(p: Option<u64>) -> (r: bool)
    ensures
        r == (p is Some ==> p->Some_0 <= MAX_AMOUNT),
{
    match p {
        Some(v) => v <= MAX_AMOUNT,
        None => true,
    }
}

/// Whether the prices of a store are in range.
pub fn are_prices_in_range(store: &PriceStore) -> (r: bool)
    ensures
        r == prices_in_range(*store),
{
    let all = store.entries();
    let mut k: usize = 0;
    while k < all.len()
        invariant
            k <= all@.len(),
            lists_entries(all@, store@),
            forall|i: int|
                0 <= i < k ==> {
                    let p = (#[trigger] all@[i]).1;
                    &&& p.binance is Some ==> p.binance->Some_0 <= MAX_AMOUNT
                    &&& p.bybit is Some ==> p.bybit->Some_0 <= MAX_AMOUNT
                },
        decreases all@.len() - k,
    {
        if !is_price_in_range(all[k].1.binance) || !is_price_in_range(all[k].1.bybit) {
            assert(store@.contains_key(all@[k as int].0@));
            return false;
        }
        k = k + 1;
    }
    true
}

/// A price, or another where there is none.
pub open spec fn price_or(p: Option<u64>, default: u64) -> int {
    match p {
        Some(v) => v as int,
        None => default as int,
    }
}

/// Unrealized profit of a position at the prices of a store.
pub open spec fn position_unrealized(pos: OpenPosition, store: PriceStore) -> int {
    match store@.get(pos.coin@) {
        Some(prices) => pos.unrealized(
            price_or(
                crate::price_store::price_of(prices, pos.buy_exchange),
                pos.entry_buy_price,
            ),
            price_or(
                crate::price_store::price_of(prices, pos.sell_exchange),
                pos.entry_sell_price,
            ),
        ),
        None => 0,
    }
}

/// The heuristic step divides the unit of a coin, so that a rounded quantity is
/// a multiple of it, not above the quantity and less than a step below it.
pub proof fn law_round_quantity(quantity: int, price: int)
    requires
        quantity >= 0,
        price >= 0,
    ensures
        heuristic_step(price) > 0,
        (SCALE as int) % heuristic_step(price) == 0,
        round_down_to(quantity, heuristic_step(price)) <= quantity,
        quantity < round_down_to(quantity, heuristic_step(price)) + heuristic_step(price),
{
    law_round_down(quantity, heuristic_step(price));
}

/// The trade size never exceeds the target, nor what the leverage supports on
/// either side, and is at least the smallest trade.
pub proof fn law_trade_size(engine: LiveTradingEngine, buy: Exchange, sell: Exchange)
    ensures
        engine.affordable_usdt(buy, sell) is Some ==> {
            let size = engine.affordable_usdt(buy, sell)->Some_0;
            &&& MIN_TRADE_USDT <= size <= engine.params.trade_size_usdt
            &&& size <= engine.balance_of(buy) * FIXED_LEVERAGE
            &&& size <= engine.balance_of(sell) * FIXED_LEVERAGE
            &&& engine.balance_of(buy) >= MIN_BALANCE_USDT
            &&& engine.balance_of(sell) >= MIN_BALANCE_USDT
        },
{
}

/// Profit is the sum of what the two legs made: where both are closed at their
/// entry prices, there is none; and an exit spread below the entry spread on
/// equal quantities is a profit.
pub proof fn law_convergence_pays(
    entry_buy: int,
    entry_sell: int,
    exit_sell: int,
    exit_buy: int,
    qty: int,
)
    requires
        qty >= 0,
    ensures
        gross_profit(entry_buy, qty, entry_buy, entry_sell, qty, entry_sell) == 0,
        exit_buy - exit_sell <= entry_sell - entry_buy ==> gross_profit(
            entry_buy,
            qty,
            exit_sell,
            entry_sell,
            qty,
            exit_buy,
        ) >= 0,
{
    assert((entry_buy - entry_buy) * qty + (entry_sell - entry_sell) * qty == 0)
        by (nonlinear_arith);
    if exit_buy - exit_sell <= entry_sell - entry_buy {
        assert((exit_sell - entry_buy) * qty + (entry_sell - exit_buy) * qty >= 0)
            by (nonlinear_arith)
            requires
                qty >= 0,
                exit_buy - exit_sell <= entry_sell - entry_buy,
        ;
        lemma_quotient_fits(
            (exit_sell - entry_buy) * qty + (entry_sell - exit_buy) * qty,
            SCALE as int,
        );
    }
}

} // verus!
