//! Opening a position: the checks before the orders, the outcome of the two
//! legs, the alignment of their quantities, and the books of the engine.
use super::{
    exact_price, exact_quantity, holds, lemma_place_of, minimum_notional, one_per_coin, rules_for,
    LiveTradingEngine, OpenPosition, MIN_TRADE_USDT,
};
use crate::clock::{now_nanos, utc_millis, utc_time_of_day, TimeOfDay};
use crate::config::{
    taker_fee, taker_fee_spec, FIXED_LEVERAGE, MAX_ALLOWED_SLIPPAGE_PCT, MAX_SPREAD_THRESHOLD,
    SKIP_1H_FUNDING_COINS,
};
use crate::fixed::{
    exact_mul, min_of, min_u64, pct_change, pct_change_spec, MAX_AMOUNT, PCT_SCALE, SCALE,
};
use crate::funding::{is_near_funding_at, near_funding, seconds_to_funding, time_to_funding_at};
use crate::latency::TradeLatency;
use crate::price_store::{
    book_of, get_order_book, CoinPrices, Exchange, FundingStore, OrderBookEntry, PriceStore,
};
use crate::trade_journal::{TradeRecord, TradeType};
use vstd::prelude::*;

verus! {

/// An opportunity that the scan found.
pub struct OpenCandidate {
    pub coin: String,
    pub buy_ex: Exchange,
    pub sell_ex: Exchange,
    pub buy_book: OrderBookEntry,
    pub sell_book: OrderBookEntry,
    pub buy_price: u64,
    pub sell_price: u64,
    pub spread: i128,
    pub dynamic_entry: i128,
    pub spread_velocity: i128,
    pub latency: TradeLatency,
}

/// What else the decision to open depends on.
pub struct OpenContext {
    /// Funding interval of the coin.
    pub funding_hours: u32,
    /// Epoch nanoseconds.
    pub now_ns: i64,
    pub time: TimeOfDay,
    /// What the store knows of the coin right before the orders are sent.
    pub fresh: Option<CoinPrices>,
}

/// A pair of quotes with their spread.
#[derive(Debug, Clone, Copy, PartialEq, Eq, Structural)]
pub struct Quote {
    pub ask: u64,
    pub bid: u64,
    pub spread_pct: i128,
}

/// Why a position is not opened.
#[derive(Debug, Clone, Copy, PartialEq, Eq, Structural)]
pub enum OpenRefusal {
    AlreadyOpen,
    EmergencyHalt,
    Cooldown { remaining_secs: i64 },
    /// The spread is below the entry threshold or beyond belief.
    SpreadOutOfRange,
    MaxPositions { open: usize },
    OneHourFunding { hours: u32 },
    NearFunding { seconds: i64 },
    NoAsk,
    NoBid,
    Crossed { ask: u64, bid: u64, spread_pct: i128 },
    BookSpreadBelowMin { quote: Quote },
    BookSpreadTooHigh { quote: Quote },
    NotProfitable { quote: Quote, required_pct: i128 },
    InsufficientBalance { quote: Quote },
    NoAskQty { quote: Quote },
    NoBidQty { quote: Quote },
    LowLiquidity { quote: Quote, usdt: u64, buy_usdt: i128, sell_usdt: i128 },
    ZeroQuantity { quote: Quote },
    BelowMinNotional { quote: Quote, quantity: u64, min_notional: u64 },
    MarginBuy { quote: Quote, usdt: u64 },
    MarginSell { quote: Quote, usdt: u64 },
    PreFlightInvalid { ask: u64, bid: u64 },
    PreFlightCollapsed { quote: Quote },
    /// Both legs would be on the same exchange.
    Unsupported,
}

/// What is to be ordered.
#[derive(Debug, Clone, Copy, PartialEq, Eq, Structural)]
pub struct OpenPlan {
    pub quote: Quote,
    /// Trade size in USDT.
    pub usdt: u64,
    /// Quantity of both legs.
    pub quantity: u64,
    /// Most that the buy leg may pay without slipping too far.
    pub worst_buy_price: u64,
    /// Least that the sell leg may get without slipping too far.
    pub worst_sell_price: u64,
    /// The quotes right before the orders are sent, where both are known.
    pub pre_flight: Option<Quote>,
}

/// The decision on an opportunity.
pub struct OpenDecision {
    /// Whether the leverage of the symbol is to be set on both exchanges.
    pub set_leverage: bool,
    pub outcome: Result<OpenPlan, OpenRefusal>,
}

/// Whether the prices and quantities of a book are in range.
pub open spec fn book_in_range(b: OrderBookEntry) -> bool {
    &&& b.best_bid is Some ==> b.best_bid->Some_0 <= MAX_AMOUNT
    &&& b.best_bid_qty is Some ==> b.best_bid_qty->Some_0 <= MAX_AMOUNT
    &&& b.best_ask is Some ==> b.best_ask->Some_0 <= MAX_AMOUNT
    &&& b.best_ask_qty is Some ==> b.best_ask_qty->Some_0 <= MAX_AMOUNT
}

fn side_in_range(v: Option<u64>) -> (r: bool)
    ensures
        r == (v is Some ==> v->Some_0 <= MAX_AMOUNT),
{
    match v {
        Some(x) => x <= MAX_AMOUNT,
        None => true,
    }
}

/// Whether the prices and quantities of a book are in range.
pub fn is_book_in_range(b: &OrderBookEntry) -> (r: bool)
    ensures
        r == book_in_range(*b),
{
    side_in_range(b.best_bid) && side_in_range(b.best_bid_qty) && side_in_range(b.best_ask)
        && side_in_range(b.best_ask_qty)
}

/// A value, where there is one and it is not zero.
pub open spec fn positive(v: Option<u64>) -> Option<u64> {
    match v {
        Some(x) if x > 0 => Some(x),
        _ => None,
    }
}

pub(crate) fn positive_of(v: Option<u64>) -> (r: Option<u64>)
    ensures
        r == positive(v),
{
    match v {
        Some(x) => if x > 0 {
            Some(x)
        } else {
            None
        },
        None => None,
    }
}

/// Fees of all four legs of a round trip, in percent.
pub open spec fn round_trip_fee_pct(buy: Exchange, sell: Exchange) -> int {
    (taker_fee_spec(buy) + taker_fee_spec(sell) + taker_fee_spec(buy) + taker_fee_spec(sell)) * 100
}

/// The spread above which a trade makes a profit: the fees of all four legs,
/// the spread that remains at exit, and a buffer of 0.1%.
pub open spec fn min_profitable_pct(buy: Exchange, sell: Exchange, exit_pct: int) -> int {
    round_trip_fee_pct(buy, sell) + exit_pct + 10_000_000
}

/// The quotes on which a candidate would trade.
pub open spec fn quote_of(ask: u64, bid: u64) -> Quote {
    Quote { ask, bid, spread_pct: pct_change_spec(ask as int, bid as int) as i128 }
}

/// USDT value of a quantity at a price, rounded down.
pub open spec fn usdt_value(price: int, qty: int) -> int {
    price * qty / (SCALE as int)
}

/// Quantity that an amount of USDT buys at a price, rounded down.
pub open spec fn quantity_for(usdt: int, price: int) -> int {
    usdt * SCALE / price
}

/// The symbol of a coin quoted in USDT.
pub open spec fn symbol_of(coin: Seq<char>) -> Seq<char> {
    coin + "USDT"@
}

/// The symbol of a coin quoted in USDT.
pub fn usdt_symbol(coin: &str) -> (s: String)
    ensures
        s@ == symbol_of(coin@),
{
    let mut s = coin.to_owned();
    s.append("USDT");
    s
}

/// The slippage that a limit price allows: wider where the spread is wide.
pub open spec fn slippage_pct(spread: int) -> int {
    if spread > 120_000_000 {
        MAX_ALLOWED_SLIPPAGE_PCT as int
    } else {
        20_000_000
    }
}

/// A price moved by a percentage, rounded down.
pub open spec fn moved_price(price: int, pct: int) -> int {
    price * (PCT_SCALE + pct) / (PCT_SCALE as int)
}

/// A price moved by a percentage, rounded down.
pub(crate) fn move_price(price: u64, pct: i64) -> (p: u64)
    requires
        price <= MAX_AMOUNT,
        -PCT_SCALE <= pct <= PCT_SCALE,
    ensures
        p == moved_price(price as int, pct as int),
        p <= 2 * MAX_AMOUNT,
        pct <= 0 ==> p <= price,
        pct >= 0 ==> p >= price,
{
    let factor: i128 = PCT_SCALE + pct as i128;
    proof {
        assert(0 <= price * factor <= MAX_AMOUNT * (2 * PCT_SCALE)) by (nonlinear_arith)
            requires
                0 <= price <= MAX_AMOUNT,
                0 <= factor <= 2 * PCT_SCALE,
        ;
        assert(0 <= price * factor / (PCT_SCALE as int) <= 2 * price) by (nonlinear_arith)
            requires
                0 <= price,
                0 <= factor <= 2 * PCT_SCALE,
                PCT_SCALE == 10_000_000_000,
        ;
        assert(pct <= 0 ==> price * factor / (PCT_SCALE as int) <= price) by (nonlinear_arith)
            requires
                0 <= price,
                factor == PCT_SCALE + pct,
                PCT_SCALE == 10_000_000_000,
        ;
        assert(pct >= 0 ==> price * factor / (PCT_SCALE as int) >= price) by (nonlinear_arith)
            requires
                0 <= price,
                factor == PCT_SCALE + pct,
                PCT_SCALE == 10_000_000_000,
        ;
    }
    (price as i128 * factor / PCT_SCALE) as u64
}

/// A latency profile with the last look at the quotes.
pub open spec fn with_look(l: TradeLatency, q: Quote, ms: i64) -> TradeLatency {
    TradeLatency {
        pre_flight_check_ms: Some(ms),
        preflight_buy_ask: Some(q.ask),
        preflight_sell_bid: Some(q.bid),
        preflight_spread_pct: Some(q.spread_pct),
        ..l
    }
}

impl LiveTradingEngine {
    /// Why the state of the engine, the clock or the funding schedule forbids a
    /// trade.
    pub open spec fn gate_refusal(&self, c: OpenCandidate, x: OpenContext) -> Option<OpenRefusal> {
        if holds(self.open_positions@, c.coin@) {
            Some(OpenRefusal::AlreadyOpen)
        } else if self.emergency_halt {
            Some(OpenRefusal::EmergencyHalt)
        } else if self.cooling(c.coin@, x.now_ns as int) {
            Some(
                OpenRefusal::Cooldown {
                    remaining_secs: (self.params.trade_cooldown_secs - self.idle_secs(
                        c.coin@,
                        x.now_ns as int,
                    )->Some_0) as i64,
                },
            )
        } else if c.spread < self.params.entry_spread_threshold || c.spread
            > MAX_SPREAD_THRESHOLD {
            Some(OpenRefusal::SpreadOutOfRange)
        } else if self.open_positions@.len() >= self.params.max_open_positions {
            Some(OpenRefusal::MaxPositions { open: self.open_positions@.len() as usize })
        } else if SKIP_1H_FUNDING_COINS && x.funding_hours <= 1 {
            Some(OpenRefusal::OneHourFunding { hours: x.funding_hours })
        } else if near_funding(x.funding_hours as int, x.time.minute_of_day()) {
            Some(
                OpenRefusal::NearFunding {
                    seconds: seconds_to_funding(
                        x.funding_hours as int,
                        x.time.second_of_day(),
                    ) as i64,
                },
            )
        } else {
            None
        }
    }

    /// Why the order books forbid a trade.
    pub open spec fn book_refusal(&self, c: OpenCandidate) -> Option<OpenRefusal> {
        match (positive(c.buy_book.best_ask), positive(c.sell_book.best_bid)) {
            (None, _) => Some(OpenRefusal::NoAsk),
            (Some(_), None) => Some(OpenRefusal::NoBid),
            (Some(ask), Some(bid)) => {
                let quote = quote_of(ask, bid);
                let required = min_profitable_pct(
                    c.buy_ex,
                    c.sell_ex,
                    self.params.exit_spread_threshold as int,
                );
                if ask >= bid {
                    Some(OpenRefusal::Crossed { ask, bid, spread_pct: quote.spread_pct })
                } else if quote.spread_pct < self.params.entry_spread_threshold {
                    Some(OpenRefusal::BookSpreadBelowMin { quote })
                } else if quote.spread_pct > MAX_SPREAD_THRESHOLD {
                    Some(OpenRefusal::BookSpreadTooHigh { quote })
                } else if quote.spread_pct <= required {
                    Some(OpenRefusal::NotProfitable { quote, required_pct: required as i128 })
                } else {
                    None
                }
            },
        }
    }

    /// The quotes of a candidate whose books pass.
    pub open spec fn quote_for(&self, c: OpenCandidate) -> Quote {
        quote_of(c.buy_book.best_ask->Some_0, c.sell_book.best_bid->Some_0)
    }

    /// The trade size: what the balances allow, capped by the depth of both books.
    pub open spec fn size_for(&self, c: OpenCandidate) -> int {
        let q = self.quote_for(c);
        min_of(
            min_of(
                self.affordable_usdt(c.buy_ex, c.sell_ex)->Some_0,
                usdt_value(q.ask as int, c.buy_book.best_ask_qty->Some_0 as int),
            ),
            usdt_value(q.bid as int, c.sell_book.best_bid_qty->Some_0 as int),
        )
    }

    /// The quantity of both legs: what the trade size buys on the dearer side,
    /// rounded down to the steps of both exchanges.
    pub open spec fn quantity_of(&self, c: OpenCandidate) -> int {
        let q = self.quote_for(c);
        let raw = min_of(
            quantity_for(self.size_for(c), q.ask as int),
            quantity_for(self.size_for(c), q.bid as int),
        );
        let symbol = symbol_of(c.coin@);
        min_of(
            exact_quantity(
                rules_for(self.exchange_info, Exchange::Binance, symbol),
                raw,
                q.ask as int,
            ),
            exact_quantity(
                rules_for(self.exchange_info, Exchange::Bybit, symbol),
                raw,
                q.ask as int,
            ),
        )
    }

    /// Whether a notional lies less than 5% above the minimum of Binance.
    pub open spec fn notional_low(&self, c: OpenCandidate, price: int) -> bool {
        let least = minimum_notional(
            rules_for(self.exchange_info, Exchange::Binance, symbol_of(c.coin@)),
        );
        self.quantity_of(c) * price * 100 < least * 105 * SCALE
    }

    /// Whether a balance does not cover the size of a trade with a buffer of 1%.
    pub open spec fn margin_short(&self, exchange: Exchange, usdt: int) -> bool {
        self.balance_of(exchange) * 100 < usdt * 101
    }

    /// Why balances, depth or trading rules forbid a trade. The books have passed.
    pub open spec fn size_refusal(&self, c: OpenCandidate) -> Option<OpenRefusal> {
        let quote = self.quote_for(c);
        if self.affordable_usdt(c.buy_ex, c.sell_ex) is None {
            Some(OpenRefusal::InsufficientBalance { quote })
        } else if positive(c.buy_book.best_ask_qty) is None {
            Some(OpenRefusal::NoAskQty { quote })
        } else if positive(c.sell_book.best_bid_qty) is None {
            Some(OpenRefusal::NoBidQty { quote })
        } else if self.size_for(c) < MIN_TRADE_USDT {
            Some(
                OpenRefusal::LowLiquidity {
                    quote,
                    usdt: self.size_for(c) as u64,
                    buy_usdt: usdt_value(
                        quote.ask as int,
                        c.buy_book.best_ask_qty->Some_0 as int,
                    ) as i128,
                    sell_usdt: usdt_value(
                        quote.bid as int,
                        c.sell_book.best_bid_qty->Some_0 as int,
                    ) as i128,
                },
            )
        } else if self.quantity_of(c) == 0 {
            Some(OpenRefusal::ZeroQuantity { quote })
        } else if self.notional_low(c, quote.ask as int) || self.notional_low(
            c,
            quote.bid as int,
        ) {
            Some(
                OpenRefusal::BelowMinNotional {
                    quote,
                    quantity: self.quantity_of(c) as u64,
                    min_notional: minimum_notional(
                        rules_for(self.exchange_info, Exchange::Binance, symbol_of(c.coin@)),
                    ) as u64,
                },
            )
        } else if self.margin_short(c.buy_ex, self.size_for(c)) {
            Some(OpenRefusal::MarginBuy { quote, usdt: self.size_for(c) as u64 })
        } else if self.margin_short(c.sell_ex, self.size_for(c)) {
            Some(OpenRefusal::MarginSell { quote, usdt: self.size_for(c) as u64 })
        } else {
            None
        }
    }

    /// The quotes right before the orders are sent, where both are known.
    pub open spec fn fresh_quote(&self, c: OpenCandidate, x: OpenContext) -> Option<Quote> {
        match x.fresh {
            Some(p) => match (book_of(p, c.buy_ex).best_ask, book_of(p, c.sell_ex).best_bid) {
                (Some(ask), Some(bid)) => Some(quote_of(ask, bid)),
                _ => None,
            },
            None => None,
        }
    }

    /// Why the last look at the quotes forbids a trade.
    pub open spec fn flight_refusal(&self, c: OpenCandidate, x: OpenContext) -> Option<
        OpenRefusal,
    > {
        match self.fresh_quote(c, x) {
            Some(q) if q.ask == 0 || q.bid == 0 || q.ask >= q.bid => Some(
                OpenRefusal::PreFlightInvalid { ask: q.ask, bid: q.bid },
            ),
            Some(q) if q.spread_pct < self.params.entry_spread_threshold => Some(
                OpenRefusal::PreFlightCollapsed { quote: q },
            ),
            _ => if c.buy_ex == c.sell_ex {
                Some(OpenRefusal::Unsupported)
            } else {
                None
            },
        }
    }

    /// What is ordered when nothing forbids the trade.
    pub open spec fn plan_for(&self, c: OpenCandidate, x: OpenContext) -> OpenPlan {
        let q = self.quote_for(c);
        let slip = slippage_pct(c.spread as int);
        let symbol = symbol_of(c.coin@);
        OpenPlan {
            quote: q,
            usdt: self.size_for(c) as u64,
            quantity: self.quantity_of(c) as u64,
            worst_buy_price: exact_price(
                rules_for(self.exchange_info, c.buy_ex, symbol),
                moved_price(q.ask as int, slip),
                true,
            ) as u64,
            worst_sell_price: exact_price(
                rules_for(self.exchange_info, c.sell_ex, symbol),
                moved_price(q.bid as int, -slip),
                false,
            ) as u64,
            pre_flight: self.fresh_quote(c, x),
        }
    }

    /// Why a trade is turned down before the leverage is set, if it is.
    pub open spec fn early_refusal(&self, c: OpenCandidate, x: OpenContext) -> Option<
        OpenRefusal,
    > {
        match self.gate_refusal(c, x) {
            Some(r) => Some(r),
            None => match self.book_refusal(c) {
                Some(r) => Some(r),
                None => self.size_refusal(c),
            },
        }
    }

    /// The decision on an opportunity.
    pub open spec fn open_outcome(&self, c: OpenCandidate, x: OpenContext) -> Result<
        OpenPlan,
        OpenRefusal,
    > {
        match self.early_refusal(c, x) {
            Some(r) => Err(r),
            None => match self.flight_refusal(c, x) {
                Some(r) => Err(r),
                None => Ok(self.plan_for(c, x)),
            },
        }
    }

    /// Whether the leverage of a symbol is known to be set on both exchanges.
    pub open spec fn leverage_known(&self, symbol: Seq<char>) -> bool {
        self.leverage_cache@.contains_key(symbol) && self.leverage_cache@[symbol] == (
            FIXED_LEVERAGE,
            FIXED_LEVERAGE,
        )
    }

    fn check_gate(&self, c: &OpenCandidate, x: &OpenContext) -> (r: Option<OpenRefusal>)
        requires
            self.params.wf(),
            x.time.wf(),
        ensures
            r == self.gate_refusal(*c, *x),
    {
        if self.position_index(c.coin.as_str()).is_some() {
            return Some(OpenRefusal::AlreadyOpen);
        }
        if self.emergency_halt {
            return Some(OpenRefusal::EmergencyHalt);
        }
        if let Some(remaining_secs) = self.cooldown_remaining_secs_at(c.coin.as_str(), x.now_ns) {
            return Some(OpenRefusal::Cooldown { remaining_secs });
        }
        if c.spread < self.params.entry_spread_threshold as i128 || c.spread
            > MAX_SPREAD_THRESHOLD as i128 {
            return Some(OpenRefusal::SpreadOutOfRange);
        }
        if self.open_positions.len() >= self.params.max_open_positions {
            return Some(OpenRefusal::MaxPositions { open: self.open_positions.len() });
        }
        if SKIP_1H_FUNDING_COINS && x.funding_hours <= 1 {
            return Some(OpenRefusal::OneHourFunding { hours: x.funding_hours });
        }
        if is_near_funding_at(x.funding_hours, x.time) {
            return Some(
                OpenRefusal::NearFunding { seconds: time_to_funding_at(x.funding_hours, x.time) },
            );
        }
        None
    }

    fn check_books(&self, c: &OpenCandidate) -> (r: Option<OpenRefusal>)
        requires
            self.params.wf(),
        ensures
            r == self.book_refusal(*c),
    {
        let ask: u64 = match positive_of(c.buy_book.best_ask) {
            Some(a) => a,
            None => {
                return Some(OpenRefusal::NoAsk);
            },
        };
        let bid: u64 = match positive_of(c.sell_book.best_bid) {
            Some(b) => b,
            None => {
                return Some(OpenRefusal::NoBid);
            },
        };
        let spread_pct: i128 = pct_change(ask, bid);
        let quote = Quote { ask, bid, spread_pct };
        if ask >= bid {
            return Some(OpenRefusal::Crossed { ask, bid, spread_pct });
        }
        if spread_pct < self.params.entry_spread_threshold as i128 {
            return Some(OpenRefusal::BookSpreadBelowMin { quote });
        }
        if spread_pct > MAX_SPREAD_THRESHOLD as i128 {
            return Some(OpenRefusal::BookSpreadTooHigh { quote });
        }
        let fees: i128 = (taker_fee(c.buy_ex) as i128 + taker_fee(c.sell_ex) as i128 + taker_fee(
            c.buy_ex,
        ) as i128 + taker_fee(c.sell_ex) as i128) * 100;
        let required_pct: i128 = fees + self.params.exit_spread_threshold as i128 + 10_000_000;
        if spread_pct <= required_pct {
            return Some(OpenRefusal::NotProfitable { quote, required_pct });
        }
        None
    }
}

/// An amount of USDT that is worth no more than a quantity at a price buys no
/// more than that quantity.
proof fn lemma_quantity_within_depth(usdt: int, price: int, qty: int)
    requires
        price > 0,
        qty >= 0,
        0 <= usdt <= usdt_value(price, qty),
    ensures
        0 <= quantity_for(usdt, price) <= qty,
{
    let s = SCALE as int;
    assert(usdt * s <= price * qty) by (nonlinear_arith)
        requires
            usdt <= (price * qty) / s,
            s == 100_000_000,
    ;
    assert(0 <= (usdt * s) / price <= qty) by (nonlinear_arith)
        requires
            0 <= usdt * s <= price * qty,
            price > 0,
    ;
}

/// USDT value of a quantity at a price.
pub(crate) fn compute_usdt_value(price: u64, qty: u64) -> (v: i128)
    ensures
        v == usdt_value(price as int, qty as int),
{
    (exact_mul(price, qty) / 100_000_000) as i128
}

fn compute_quantity(usdt: u64, price: u64, qty: u64) -> (q: u64)
    requires
        price > 0,
        usdt <= usdt_value(price as int, qty as int),
    ensures
        q == quantity_for(usdt as int, price as int),
        q <= qty,
{
    proof {
        lemma_quantity_within_depth(usdt as int, price as int, qty as int);
    }
    (usdt as u128 * 100_000_000 / price as u128) as u64
}

fn smaller(a: u64, b: i128) -> (m: u64)
    requires
        b >= 0,
    ensures
        m == min_of(a as int, b as int),
{
    if b < a as i128 {
        b as u64
    } else {
        a
    }
}

impl LiveTradingEngine {
    fn is_notional_low(quantity: u64, price: u64, least: u64) -> (r: bool)
        requires
            quantity <= MAX_AMOUNT,
            price <= MAX_AMOUNT,
            least <= MAX_AMOUNT,
        ensures
            r == (quantity * price * 100 < least * 105 * SCALE),
    {
        proof {
            assert(0 <= quantity * price <= 1_000_000_000_000_000_000_000_000_000_000_000_000)
                by (nonlinear_arith)
                requires
                    quantity <= 1_000_000_000_000_000_000,
                    price <= 1_000_000_000_000_000_000,
            ;
        }
        exact_mul(quantity, price) * 100 < least as u128 * 105 * 100_000_000
    }

    fn is_margin_short(&self, exchange: Exchange, usdt: u64) -> (r: bool)
        ensures
            r == self.margin_short(exchange, usdt as int),
    {
        self.get_balance(exchange) as i128 * 100 < usdt as i128 * 101
    }

    fn check_size(&self, c: &OpenCandidate, quote: Quote) -> (r: Result<(u64, u64), OpenRefusal>)
        requires
            self.wf(),
            book_in_range(c.buy_book),
            book_in_range(c.sell_book),
            self.book_refusal(*c) is None,
            quote == self.quote_for(*c),
        ensures
            match r {
                Ok(s) => {
                    &&& self.size_refusal(*c) is None
                    &&& s.0 == self.size_for(*c)
                    &&& s.1 == self.quantity_of(*c)
                    &&& s.1 <= MAX_AMOUNT
                },
                Err(e) => self.size_refusal(*c) == Some(e),
            },
    {
        let affordable: u64 = match self.calculate_trade_params(c.buy_ex, c.sell_ex) {
            Some(p) => p.0,
            None => {
                return Err(OpenRefusal::InsufficientBalance { quote });
            },
        };
        let ask_qty: u64 = match positive_of(c.buy_book.best_ask_qty) {
            Some(q) => q,
            None => {
                return Err(OpenRefusal::NoAskQty { quote });
            },
        };
        let bid_qty: u64 = match positive_of(c.sell_book.best_bid_qty) {
            Some(q) => q,
            None => {
                return Err(OpenRefusal::NoBidQty { quote });
            },
        };
        let buy_usdt: i128 = compute_usdt_value(quote.ask, ask_qty);
        let sell_usdt: i128 = compute_usdt_value(quote.bid, bid_qty);
        let usdt: u64 = smaller(smaller(affordable, buy_usdt), sell_usdt);
        if usdt < MIN_TRADE_USDT {
            return Err(OpenRefusal::LowLiquidity { quote, usdt, buy_usdt, sell_usdt });
        }
        let buy_quantity: u64 = compute_quantity(usdt, quote.ask, ask_qty);
        let sell_quantity: u64 = compute_quantity(usdt, quote.bid, bid_qty);
        let raw: u64 = min_u64(buy_quantity, sell_quantity);
        let symbol = usdt_symbol(c.coin.as_str());
        let on_binance: u64 = self.round_quantity_exact(
            symbol.as_str(),
            Exchange::Binance,
            raw,
            quote.ask,
        );
        let on_bybit: u64 = self.round_quantity_exact(
            symbol.as_str(),
            Exchange::Bybit,
            raw,
            quote.ask,
        );
        let quantity: u64 = min_u64(on_binance, on_bybit);
        if quantity == 0 {
            return Err(OpenRefusal::ZeroQuantity { quote });
        }
        let min_notional: u64 = self.get_min_notional(symbol.as_str(), Exchange::Binance);
        if Self::is_notional_low(quantity, quote.ask, min_notional) || Self::is_notional_low(
            quantity,
            quote.bid,
            min_notional,
        ) {
            return Err(OpenRefusal::BelowMinNotional { quote, quantity, min_notional });
        }
        if self.is_margin_short(c.buy_ex, usdt) {
            return Err(OpenRefusal::MarginBuy { quote, usdt });
        }
        if self.is_margin_short(c.sell_ex, usdt) {
            return Err(OpenRefusal::MarginSell { quote, usdt });
        }
        Ok((usdt, quantity))
    }

    fn check_flight(&self, c: &OpenCandidate, x: &OpenContext) -> (r: Result<
        Option<Quote>,
        OpenRefusal,
    >)
        ensures
            match r {
                Ok(q) => self.flight_refusal(*c, *x) is None && q == self.fresh_quote(*c, *x),
                Err(e) => self.flight_refusal(*c, *x) == Some(e),
            },
    {
        let mut seen: Option<Quote> = None;
        if let Some(p) = &x.fresh {
            let ask_side = get_order_book(p, c.buy_ex).best_ask;
            let bid_side = get_order_book(p, c.sell_ex).best_bid;
            if let (Some(ask), Some(bid)) = (ask_side, bid_side) {
                if ask == 0 || bid == 0 || ask >= bid {
                    return Err(OpenRefusal::PreFlightInvalid { ask, bid });
                }
                let quote = Quote { ask, bid, spread_pct: pct_change(ask, bid) };
                if quote.spread_pct < self.params.entry_spread_threshold as i128 {
                    return Err(OpenRefusal::PreFlightCollapsed { quote });
                }
                seen = Some(quote);
            }
        }
        if c.buy_ex == c.sell_ex {
            return Err(OpenRefusal::Unsupported);
        }
        Ok(seen)
    }

    /// Decides on an opportunity. The leverage of the symbol is noted as set once
    /// balances, books and rules allow the trade.
    pub fn decide_open(&mut self, c: &OpenCandidate, x: &OpenContext) -> (d: OpenDecision)
        requires
            old(self).wf(),
            x.time.wf(),
            book_in_range(c.buy_book),
            book_in_range(c.sell_book),
        ensures
            final(self).wf(),
            d.outcome == old(self).open_outcome(*c, *x),
            d.set_leverage == (old(self).early_refusal(*c, *x) is None
                && !old(self).leverage_known(symbol_of(c.coin@))),
            final(self).leverage_cache@ == if d.set_leverage {
                old(self).leverage_cache@.insert(
                    symbol_of(c.coin@),
                    (FIXED_LEVERAGE, FIXED_LEVERAGE),
                )
            } else {
                old(self).leverage_cache@
            },
            *final(self) == (LiveTradingEngine {
                leverage_cache: final(self).leverage_cache,
                ..*old(self)
            }),
    {
        if let Some(r) = self.check_gate(c, x) {
            return OpenDecision { set_leverage: false, outcome: Err(r) };
        }
        if let Some(r) = self.check_books(c) {
            return OpenDecision { set_leverage: false, outcome: Err(r) };
        }
        let ask: u64 = match c.buy_book.best_ask {
            Some(a) => a,
            None => 1,
        };
        let bid: u64 = match c.sell_book.best_bid {
            Some(b) => b,
            None => 1,
        };
        let quote = Quote { ask, bid, spread_pct: pct_change(ask, bid) };
        let (usdt, quantity): (u64, u64) = match self.check_size(c, quote) {
            Ok(s) => s,
            Err(r) => {
                return OpenDecision { set_leverage: false, outcome: Err(r) };
            },
        };
        let symbol = usdt_symbol(c.coin.as_str());
        let known: bool = match self.leverage_cache.get(symbol.as_str()) {
            Some(l) => l.0 == FIXED_LEVERAGE && l.1 == FIXED_LEVERAGE,
            None => false,
        };
        let flight = self.check_flight(c, x);
        let slip: i64 = if c.spread > 120_000_000 {
            MAX_ALLOWED_SLIPPAGE_PCT
        } else {
            20_000_000
        };
        let worst_buy_price: u64 = self.round_price(
            symbol.as_str(),
            c.buy_ex,
            move_price(ask, slip),
            true,
        );
        let worst_sell_price: u64 = self.round_price(
            symbol.as_str(),
            c.sell_ex,
            move_price(bid, -slip),
            false,
        );
        if !known {
            self.leverage_cache.insert(symbol, (FIXED_LEVERAGE, FIXED_LEVERAGE));
        }
        match flight {
            Err(r) => OpenDecision { set_leverage: !known, outcome: Err(r) },
            Ok(pre_flight) => OpenDecision {
                set_leverage: !known,
                outcome: Ok(
                    OpenPlan {
                        quote,
                        usdt,
                        quantity,
                        worst_buy_price,
                        worst_sell_price,
                        pre_flight,
                    },
                ),
            },
        }
    }

    /// Tries to open a position on an opportunity: looks at the clock and at the
    /// stores, decides, and notes the last look at the quotes in the latency
    /// profile.
    pub fn try_open_position(
        &mut self,
        c: &mut OpenCandidate,
        funding_store: &FundingStore,
        price_store: &PriceStore,
    ) -> (d: OpenDecision)
        requires
            old(self).wf(),
            old(c).latency.wf(),
            book_in_range(old(c).buy_book),
            book_in_range(old(c).sell_book),
        ensures
            final(self).wf(),
            exists|x: OpenContext|
                #![trigger old(self).open_outcome(*old(c), x)]
                {
                    &&& x.time.wf()
                    &&& x.funding_hours == funding_store.hours_spec(old(c).coin@)
                    &&& x.fresh == price_store@.get(old(c).coin@)
                    &&& d.outcome == old(self).open_outcome(*old(c), x)
                    &&& d.set_leverage == (old(self).early_refusal(*old(c), x) is None
                        && !old(self).leverage_known(symbol_of(old(c).coin@)))
                },
            final(self).leverage_cache@ == if d.set_leverage {
                old(self).leverage_cache@.insert(
                    symbol_of(old(c).coin@),
                    (FIXED_LEVERAGE, FIXED_LEVERAGE),
                )
            } else {
                old(self).leverage_cache@
            },
            *final(self) == (LiveTradingEngine {
                leverage_cache: final(self).leverage_cache,
                ..*old(self)
            }),
            *final(c) == (OpenCandidate { latency: final(c).latency, ..*old(c) }),
            final(c).latency.wf(),
            match d.outcome {
                Ok(plan) => match plan.pre_flight {
                    Some(q) => exists|ms: i64|
                        final(c).latency == #[trigger] with_look(old(c).latency, q, ms),
                    None => final(c).latency == old(c).latency,
                },
                Err(OpenRefusal::PreFlightCollapsed { quote }) => exists|ms: i64|
                    final(c).latency.derived_from(#[trigger] with_look(old(c).latency, quote, ms)),
                Err(_) => final(c).latency == old(c).latency,
            },
    {
        let x = OpenContext {
            funding_hours: funding_store.hours(c.coin.as_str()),
            now_ns: now_nanos(),
            time: utc_time_of_day(),
            fresh: price_store.get(c.coin.as_str()),
        };
        let d = self.decide_open(c, &x);
        let now_ms: i64 = utc_millis();
        let ghost before = c.latency;
        match d.outcome {
            Ok(plan) => {
                if let Some(q) = plan.pre_flight {
                    c.latency.mark_pre_flight_at(now_ms, q.ask, q.bid, q.spread_pct);
                    assert(c.latency == with_look(before, q, now_ms));
                }
            },
            Err(OpenRefusal::PreFlightCollapsed { quote }) => {
                c.latency.mark_pre_flight_at(now_ms, quote.ask, quote.bid, quote.spread_pct);
                assert(c.latency == with_look(before, quote, now_ms));
                c.latency.compute_derived();
            },
            Err(_) => {},
        }
        d
    }
}

/// A position is only opened where all conditions hold: none is open on the
/// coin, the engine is not halted, the cooldown is over, the spread reaches the
/// entry threshold, there is room for another position, the coin is not funded
/// hourly nor near its funding time, the books are not crossed and their spread
/// pays for the fees of all four legs, the exit spread and the buffer, the trade
/// is large enough and within the depth of both books, and both balances cover
/// its margin.
pub proof fn law_open_conditions(e: LiveTradingEngine, c: OpenCandidate, x: OpenContext)
    requires
        e.open_outcome(c, x) is Ok,
        book_in_range(c.buy_book),
        book_in_range(c.sell_book),
    ensures
        ({
            let plan = e.open_outcome(c, x)->Ok_0;
            let size = e.size_for(c);
            &&& !holds(e.open_positions@, c.coin@)
            &&& !e.emergency_halt
            &&& !e.cooling(c.coin@, x.now_ns as int)
            &&& e.params.entry_spread_threshold <= c.spread <= MAX_SPREAD_THRESHOLD
            &&& e.open_positions@.len() < e.params.max_open_positions
            &&& x.funding_hours > 1
            &&& !near_funding(x.funding_hours as int, x.time.minute_of_day())
            &&& c.buy_book.best_ask == Some(plan.quote.ask)
            &&& c.sell_book.best_bid == Some(plan.quote.bid)
            &&& 0 < plan.quote.ask < plan.quote.bid
            &&& plan.quote.spread_pct > min_profitable_pct(
                c.buy_ex,
                c.sell_ex,
                e.params.exit_spread_threshold as int,
            )
            &&& e.params.entry_spread_threshold <= plan.quote.spread_pct <= MAX_SPREAD_THRESHOLD
            &&& MIN_TRADE_USDT <= size <= e.params.trade_size_usdt
            &&& size <= usdt_value(plan.quote.ask as int, c.buy_book.best_ask_qty->Some_0 as int)
            &&& size <= usdt_value(plan.quote.bid as int, c.sell_book.best_bid_qty->Some_0 as int)
            &&& !e.margin_short(c.buy_ex, size)
            &&& !e.margin_short(c.sell_ex, size)
            &&& c.buy_ex != c.sell_ex
        }),
{
}

/// A halted engine opens nothing.
pub proof fn law_halt_blocks_opening(e: LiveTradingEngine, c: OpenCandidate, x: OpenContext)
    requires
        e.emergency_halt,
    ensures
        e.open_outcome(c, x) is Err,
{
}

/// A full engine opens nothing.
pub proof fn law_limit_blocks_opening(e: LiveTradingEngine, c: OpenCandidate, x: OpenContext)
    requires
        e.open_positions@.len() >= e.params.max_open_positions,
    ensures
        e.open_outcome(c, x) is Err,
{
}

/// An order is never larger than its trade size on either side, nor than the
/// best level of either book.
pub proof fn law_order_within_size(e: LiveTradingEngine, c: OpenCandidate, x: OpenContext)
    requires
        e.open_outcome(c, x) is Ok,
        e.exchange_info.wf(),
        book_in_range(c.buy_book),
        book_in_range(c.sell_book),
    ensures
        ({
            let q = e.quote_for(c);
            let quantity = e.quantity_of(c);
            &&& 0 < quantity
            &&& quantity * q.ask <= e.size_for(c) * SCALE
            &&& quantity * q.bid <= e.size_for(c) * SCALE
            &&& quantity <= c.buy_book.best_ask_qty->Some_0
            &&& quantity <= c.sell_book.best_bid_qty->Some_0
        }),
{
    let q = e.quote_for(c);
    let ask = q.ask as int;
    let bid = q.bid as int;
    let size = e.size_for(c);
    lemma_quantity_within_depth(size, ask, c.buy_book.best_ask_qty->Some_0 as int);
    lemma_quantity_within_depth(size, bid, c.sell_book.best_bid_qty->Some_0 as int);
    let by_ask = quantity_for(size, ask);
    let by_bid = quantity_for(size, bid);
    let raw = min_of(by_ask, by_bid);
    let symbol = symbol_of(c.coin@);
    lemma_exact_quantity(rules_for(e.exchange_info, Exchange::Binance, symbol), raw, ask);
    lemma_exact_quantity(rules_for(e.exchange_info, Exchange::Bybit, symbol), raw, ask);
    let n = e.quantity_of(c);
    let s = SCALE as int;
    assert(by_ask * ask <= size * s) by (nonlinear_arith)
        requires
            by_ask == (size * s) / ask,
            ask > 0,
    ;
    assert(by_bid * bid <= size * s) by (nonlinear_arith)
        requires
            by_bid == (size * s) / bid,
            bid > 0,
    ;
    assert(n * ask <= by_ask * ask && n * bid <= by_bid * bid) by (nonlinear_arith)
        requires
            n <= by_ask,
            n <= by_bid,
            ask > 0,
            bid > 0,
    ;
}

/// A quantity rounded for an exchange is not larger, and not negative.
proof fn lemma_exact_quantity(
    rules: Option<crate::exchanges::exchange_info::SymbolInfo>,
    quantity: int,
    price: int,
)
    requires
        quantity >= 0,
    ensures
        0 <= exact_quantity(rules, quantity, price) <= quantity,
{
    match rules {
        Some(si) => {
            if si.step_size > 0 {
                crate::exchanges::exchange_info::law_round_down(quantity, si.step_size as int);
            }
        },
        None => {
            crate::exchanges::exchange_info::law_round_down(
                quantity,
                super::heuristic_step(price),
            );
        },
    }
}

/// What a leg was filled with, whichever exchange it was on.
#[derive(Debug, Clone)]
pub struct UnifiedFill {
    pub order_id: String,
    pub avg_price: u64,
    pub filled_qty: u64,
    pub quote_qty: u128,
    pub commission: u64,
}

impl UnifiedFill {
    /// Price, quantity and commission are in range.
    pub open spec fn wf(&self) -> bool {
        self.avg_price <= MAX_AMOUNT && self.filled_qty <= MAX_AMOUNT && self.commission
            <= MAX_AMOUNT
    }

    /// Whether price, quantity and commission are in range.
    pub fn is_in_range(&self) -> (r: bool)
        ensures
            r == self.wf(),
    {
        self.avg_price <= MAX_AMOUNT && self.filled_qty <= MAX_AMOUNT && self.commission
            <= MAX_AMOUNT
    }

    /// The fill with price, quantity and commission brought into range. What is in
    /// range stays as it is.
    pub fn bounded(self) -> (u: UnifiedFill)
        ensures
            u.wf(),
            u == (UnifiedFill {
                avg_price: min_of(self.avg_price as int, MAX_AMOUNT as int) as u64,
                filled_qty: min_of(self.filled_qty as int, MAX_AMOUNT as int) as u64,
                commission: min_of(self.commission as int, MAX_AMOUNT as int) as u64,
                ..self
            }),
            self.wf() ==> u == self,
    {
        UnifiedFill {
            order_id: self.order_id,
            avg_price: min_u64(self.avg_price, MAX_AMOUNT),
            filled_qty: min_u64(self.filled_qty, MAX_AMOUNT),
            quote_qty: self.quote_qty,
            commission: min_u64(self.commission, MAX_AMOUNT),
        }
    }

    /// Whether a fill is that of a leg on Binance.
    pub open spec fn tells_binance(&self, f: crate::exchanges::binance_api::OrderFill) -> bool {
        &&& self.order_id@ == crate::text::nat_text(f.order_id as nat)
        &&& self.avg_price == f.avg_price
        &&& self.filled_qty == f.filled_qty
        &&& self.quote_qty == f.quote_qty
        &&& self.commission == f.commission
    }

    /// Whether a fill is that of a leg on Bybit.
    pub open spec fn tells_bybit(&self, f: crate::exchanges::bybit_api::OrderFill) -> bool {
        &&& self.order_id@ == f.order_id@
        &&& self.avg_price == f.avg_price
        &&& self.filled_qty == f.filled_qty
        &&& self.quote_qty == f.quote_qty
        &&& self.commission == f.commission
    }

    /// The fill of a leg on Binance.
    pub fn from_binance_fill(f: &crate::exchanges::binance_api::OrderFill) -> (u: UnifiedFill)
        ensures
            u.tells_binance(*f),
    {
        let mut order_id = String::new();
        crate::text::push_nat(&mut order_id, f.order_id as u128);
        assert(order_id@ =~= crate::text::nat_text(f.order_id as nat));
        UnifiedFill {
            order_id,
            avg_price: f.avg_price,
            filled_qty: f.filled_qty,
            quote_qty: f.quote_qty,
            commission: f.commission,
        }
    }

    /// The fill of a leg on Bybit.
    pub fn from_bybit_fill(f: &crate::exchanges::bybit_api::OrderFill) -> (u: UnifiedFill)
        ensures
            u.tells_bybit(*f),
    {
        UnifiedFill {
            order_id: f.order_id.clone(),
            avg_price: f.avg_price,
            filled_qty: f.filled_qty,
            quote_qty: f.quote_qty,
            commission: f.commission,
        }
    }
}

/// How an exchange spells the side of an order.
pub open spec fn side_text(exchange: Exchange, is_buy: bool) -> Seq<char> {
    match exchange {
        Exchange::Binance => if is_buy {
            "BUY"@
        } else {
            "SELL"@
        },
        Exchange::Bybit => if is_buy {
            "Buy"@
        } else {
            "Sell"@
        },
    }
}

/// How an exchange spells the side of an order.
pub fn order_side(exchange: Exchange, is_buy: bool) -> (s: &'static str)
    ensures
        s@ == side_text(exchange, is_buy),
{
    match exchange {
        Exchange::Binance => if is_buy {
            "BUY"
        } else {
            "SELL"
        },
        Exchange::Bybit => if is_buy {
            "Buy"
        } else {
            "Sell"
        },
    }
}

/// What follows the two legs of an opening trade.
#[derive(Debug, Clone, Copy, PartialEq, Eq, Structural)]
pub enum LegsOutcome {
    BothFilled,
    /// Only the buy leg was filled: it is sold back.
    ReverseBuy { exchange: Exchange, quantity: u64 },
    /// Only the sell leg was filled: it is bought back.
    ReverseSell { exchange: Exchange, quantity: u64 },
    BothFailed,
}

/// What follows the two legs of an opening trade.
pub open spec fn legs_outcome(
    buy_ex: Exchange,
    sell_ex: Exchange,
    buy: Result<UnifiedFill, String>,
    sell: Result<UnifiedFill, String>,
) -> LegsOutcome {
    match (buy, sell) {
        (Ok(_), Ok(_)) => LegsOutcome::BothFilled,
        (Ok(b), Err(_)) => LegsOutcome::ReverseBuy { exchange: buy_ex, quantity: b.filled_qty },
        (Err(_), Ok(s)) => LegsOutcome::ReverseSell { exchange: sell_ex, quantity: s.filled_qty },
        (Err(_), Err(_)) => LegsOutcome::BothFailed,
    }
}

/// What follows the two legs of an opening trade.
pub fn settle_legs(
    buy_ex: Exchange,
    sell_ex: Exchange,
    buy: &Result<UnifiedFill, String>,
    sell: &Result<UnifiedFill, String>,
) -> (o: LegsOutcome)
    ensures
        o == legs_outcome(buy_ex, sell_ex, *buy, *sell),
{
    match (buy, sell) {
        (Ok(_), Ok(_)) => LegsOutcome::BothFilled,
        (Ok(b), Err(_)) => LegsOutcome::ReverseBuy { exchange: buy_ex, quantity: b.filled_qty },
        (Err(_), Ok(s)) => LegsOutcome::ReverseSell { exchange: sell_ex, quantity: s.filled_qty },
        (Err(_), Err(_)) => LegsOutcome::BothFailed,
    }
}

/// Slippages and spread of executed legs.
#[derive(Debug, Clone, Copy, PartialEq, Eq, Structural)]
pub struct FillAudit {
    /// Executed spread in percent of the buy price.
    pub entry_spread: i128,
    /// How much more than the quoted ask was paid, in percent.
    pub buy_slippage: i128,
    /// How much less than the quoted bid was got, in percent.
    pub sell_slippage: i128,
}

/// The percentage by which `to` lies below `from`, rounded down to a unit.
pub open spec fn pct_drop(from: int, to: int) -> int {
    ((from - to) * PCT_SCALE) / from
}

/// The audit of two executed legs.
pub open spec fn audit_of(quote: Quote, buy_price: int, sell_price: int) -> FillAudit {
    FillAudit {
        entry_spread: if buy_price > 0 {
            pct_change_spec(buy_price, sell_price) as i128
        } else {
            0
        },
        buy_slippage: if quote.ask > 0 {
            pct_change_spec(quote.ask as int, buy_price) as i128
        } else {
            0
        },
        sell_slippage: if quote.bid > 0 {
            pct_drop(quote.bid as int, sell_price) as i128
        } else {
            0
        },
    }
}

fn compute_drop(from: u64, to: u64) -> (p: i128)
    requires
        from > 0,
    ensures
        p == pct_drop(from as int, to as int),
        -u64::MAX * PCT_SCALE <= p <= PCT_SCALE,
{
    let scaled: i128 = (from as i128 - to as i128) * PCT_SCALE;
    proof {
        crate::fixed::lemma_quotient_fits(scaled as int, from as int);
        assert(scaled as int / from as int <= PCT_SCALE) by (nonlinear_arith)
            requires
                scaled == (from - to) * PCT_SCALE,
                from > 0,
                to >= 0,
                PCT_SCALE > 0,
        ;
    }
    crate::fixed::floor_div(scaled, from as i128)
}

/// The audit of two executed legs.
pub fn audit_fills(quote: Quote, buy_price: u64, sell_price: u64) -> (a: FillAudit)
    ensures
        a == audit_of(quote, buy_price as int, sell_price as int),
{
    FillAudit {
        entry_spread: if buy_price > 0 {
            pct_change(buy_price, sell_price)
        } else {
            0
        },
        buy_slippage: if quote.ask > 0 {
            pct_change(quote.ask, buy_price)
        } else {
            0
        },
        sell_slippage: if quote.bid > 0 {
            compute_drop(quote.bid, sell_price)
        } else {
            0
        },
    }
}

impl FillAudit {
    /// Whether a leg slipped by more than is acceptable.
    pub fn is_high_slippage(&self) -> (r: bool)
        ensures
            r == (crate::fixed::abs_of(self.buy_slippage as int) > MAX_ALLOWED_SLIPPAGE_PCT
                || crate::fixed::abs_of(self.sell_slippage as int) > MAX_ALLOWED_SLIPPAGE_PCT),
    {
        self.buy_slippage > MAX_ALLOWED_SLIPPAGE_PCT as i128 || self.buy_slippage < -(
        MAX_ALLOWED_SLIPPAGE_PCT as i128) || self.sell_slippage > MAX_ALLOWED_SLIPPAGE_PCT as i128
            || self.sell_slippage < -(MAX_ALLOWED_SLIPPAGE_PCT as i128)
    }
}

/// Most orders that are sent to align the quantities of the legs.
pub const MAX_ALIGNMENTS: u32 = 2;

/// The alignment of the filled quantities: the leg that was filled with more
/// gives back its excess, in at most two orders.
#[derive(Debug, Clone, Copy, PartialEq, Eq, Structural)]
pub struct Alignment {
    pub buy_qty: u64,
    pub sell_qty: u64,
    /// Quantity that both legs have.
    pub min_qty: u64,
    /// Whether the buy leg is the larger one.
    pub on_buy: bool,
    /// What the larger leg still has to give back.
    pub excess: u64,
    pub attempts: u32,
    /// Fill price of the larger leg.
    pub price: u64,
}

/// An order that gives back excess.
#[derive(Debug, Clone, Copy, PartialEq, Eq, Structural)]
pub struct AlignmentOrder {
    pub is_buy: bool,
    pub quantity: u64,
    pub worst_price: u64,
}

/// Whether the legs were filled with quantities that differ by more than 0.1%.
pub open spec fn misaligned(buy_qty: int, sell_qty: int) -> bool {
    buy_qty > 0 && sell_qty > 0 && crate::fixed::abs_of(buy_qty - sell_qty) * PCT_SCALE
        > 10_000_000 * crate::fixed::max_of(buy_qty, sell_qty)
}

/// What a leg has to give back, rounded down to a quantity that can be ordered.
pub open spec fn excess_of(qty: int, min_qty: int, price: int) -> int {
    crate::exchanges::exchange_info::round_down_to(
        crate::stats::less(qty, min_qty),
        super::heuristic_step(price),
    )
}

/// The percentage by which the limit of an alignment order may slip: 0.2% at
/// the first attempt, 0.5% at the second.
pub open spec fn alignment_slip(attempts: u32) -> int {
    if attempts == 0 {
        20_000_000
    } else {
        50_000_000
    }
}

/// The alignment that two filled legs need, none where they match.
pub open spec fn needed_alignment(buy: UnifiedFill, sell: UnifiedFill) -> Option<Alignment> {
    if misaligned(buy.filled_qty as int, sell.filled_qty as int) {
        let on_buy = buy.filled_qty > sell.filled_qty;
        let price = if on_buy {
            buy.avg_price
        } else {
            sell.avg_price
        };
        let least = min_of(buy.filled_qty as int, sell.filled_qty as int);
        Some(
            Alignment {
                buy_qty: buy.filled_qty,
                sell_qty: sell.filled_qty,
                min_qty: least as u64,
                on_buy,
                excess: excess_of(
                    crate::fixed::max_of(buy.filled_qty as int, sell.filled_qty as int),
                    least,
                    price as int,
                ) as u64,
                attempts: 0,
                price,
            },
        )
    } else {
        None
    }
}

impl Alignment {
    /// Quantities and price are in range, and no more orders were sent than may.
    pub open spec fn wf(&self) -> bool {
        &&& self.buy_qty <= MAX_AMOUNT
        &&& self.sell_qty <= MAX_AMOUNT
        &&& self.price <= MAX_AMOUNT
        &&& self.min_qty <= MAX_AMOUNT
        &&& self.excess <= MAX_AMOUNT
        &&& self.attempts <= MAX_ALIGNMENTS
    }

    /// The alignment that two filled legs need, none where they match.
    pub fn start(buy: &UnifiedFill, sell: &UnifiedFill) -> (r: Option<Alignment>)
        requires
            buy.wf(),
            sell.wf(),
        ensures
            r == needed_alignment(*buy, *sell),
            r is Some ==> r->Some_0.wf(),
    {
        let b: u64 = buy.filled_qty;
        let s: u64 = sell.filled_qty;
        let on_buy: bool = b > s;
        let large: u64 = if on_buy {
            b
        } else {
            s
        };
        let small: u64 = if on_buy {
            s
        } else {
            b
        };
        if b == 0 || s == 0 || (large - small) as i128 * PCT_SCALE <= 10_000_000 * large as i128 {
            return None;
        }
        let price: u64 = if on_buy {
            buy.avg_price
        } else {
            sell.avg_price
        };
        Some(
            Alignment {
                buy_qty: b,
                sell_qty: s,
                min_qty: small,
                on_buy,
                excess: LiveTradingEngine::round_quantity(large - small, price),
                attempts: 0,
                price,
            },
        )
    }

    /// The price from which the limit of the next order slips: the best price of
    /// the book on the other side, else the fill price.
    pub open spec fn reference(&self, buy_book: OrderBookEntry, sell_book: OrderBookEntry) -> u64 {
        let quoted = if self.on_buy {
            buy_book.best_bid
        } else {
            sell_book.best_ask
        };
        match quoted {
            Some(p) => p,
            None => self.price,
        }
    }

    /// The next order: none where nothing is left to give back or both attempts
    /// were made. Excess of the buy leg is sold below the bid, excess of the sell
    /// leg bought above the ask.
    pub open spec fn order(&self, buy_book: OrderBookEntry, sell_book: OrderBookEntry) -> Option<
        AlignmentOrder,
    > {
        let reference = self.reference(buy_book, sell_book) as int;
        if self.excess > 0 && self.attempts < MAX_ALIGNMENTS {
            Some(
                AlignmentOrder {
                    is_buy: !self.on_buy,
                    quantity: self.excess,
                    worst_price: if self.on_buy {
                        moved_price(reference, -alignment_slip(self.attempts)) as u64
                    } else {
                        moved_price(reference, alignment_slip(self.attempts)) as u64
                    },
                },
            )
        } else {
            None
        }
    }

    /// The next order, if there is one.
    pub fn next_order(&self, buy_book: &OrderBookEntry, sell_book: &OrderBookEntry) -> (r: Option<
        AlignmentOrder,
    >)
        requires
            self.wf(),
            book_in_range(*buy_book),
            book_in_range(*sell_book),
        ensures
            r == self.order(*buy_book, *sell_book),
    {
        if self.excess == 0 || self.attempts >= MAX_ALIGNMENTS {
            return None;
        }
        let slip: i64 = if self.attempts == 0 {
            20_000_000
        } else {
            50_000_000
        };
        let quoted = if self.on_buy {
            buy_book.best_bid
        } else {
            sell_book.best_ask
        };
        let reference: u64 = match quoted {
            Some(p) => p,
            None => self.price,
        };
        let worst_price: u64 = if self.on_buy {
            move_price(reference, -slip)
        } else {
            move_price(reference, slip)
        };
        Some(AlignmentOrder { is_buy: !self.on_buy, quantity: self.excess, worst_price })
    }

    /// The alignment after an order that was filled with a quantity, nothing
    /// where it failed.
    pub open spec fn after(&self, filled: Option<u64>) -> Alignment {
        let next = Alignment { attempts: (self.attempts + 1) as u32, ..*self };
        match filled {
            Some(q) if q > 0 => if self.on_buy {
                let buy_qty = crate::stats::less(self.buy_qty as int, q as int);
                Alignment {
                    buy_qty: buy_qty as u64,
                    excess: excess_of(buy_qty, self.min_qty as int, self.price as int) as u64,
                    ..next
                }
            } else {
                let sell_qty = crate::stats::less(self.sell_qty as int, q as int);
                Alignment {
                    sell_qty: sell_qty as u64,
                    excess: excess_of(sell_qty, self.min_qty as int, self.price as int) as u64,
                    ..next
                }
            },
            _ => next,
        }
    }

    /// Notes what an alignment order was filled with, nothing where it failed.
    pub fn settle(&mut self, filled: Option<u64>)
        requires
            old(self).wf(),
            old(self).attempts < MAX_ALIGNMENTS,
        ensures
            final(self).wf(),
            *final(self) == old(self).after(filled),
    {
        if let Some(q) = filled {
            if q > 0 {
                if self.on_buy {
                    self.buy_qty = self.buy_qty.saturating_sub(q);
                    self.excess = LiveTradingEngine::round_quantity(
                        self.buy_qty.saturating_sub(self.min_qty),
                        self.price,
                    );
                } else {
                    self.sell_qty = self.sell_qty.saturating_sub(q);
                    self.excess = LiveTradingEngine::round_quantity(
                        self.sell_qty.saturating_sub(self.min_qty),
                        self.price,
                    );
                }
            }
        }
        self.attempts = self.attempts + 1;
    }
}

/// A value, or zero where there is none.
pub open spec fn or_zero(v: Option<u64>) -> u64 {
    match v {
        Some(x) => x,
        None => 0,
    }
}

pub(crate) fn value_or_zero(v: Option<u64>) -> (r: u64)
    ensures
        r == or_zero(v),
{
    match v {
        Some(x) => x,
        None => 0,
    }
}

/// The fills of both legs of an opening trade, with the quantities that remain
/// after their alignment.
pub struct OpenFills {
    pub quote: Quote,
    pub buy: UnifiedFill,
    pub sell: UnifiedFill,
    pub buy_qty: u64,
    pub sell_qty: u64,
    pub funding_hours: u32,
    /// Epoch nanoseconds.
    pub now_ns: i64,
}

impl OpenFills {
    /// Prices, quantities and commissions are in range.
    pub open spec fn wf(&self) -> bool {
        self.buy.wf() && self.sell.wf() && self.buy_qty <= MAX_AMOUNT && self.sell_qty
            <= MAX_AMOUNT
    }

    /// Whether prices, quantities and commissions are in range.
    pub fn is_in_range(&self) -> (r: bool)
        ensures
            r == self.wf(),
    {
        self.buy.is_in_range() && self.sell.is_in_range() && self.buy_qty <= MAX_AMOUNT
            && self.sell_qty <= MAX_AMOUNT
    }

    /// Executed spread and slippages.
    pub open spec fn audit(&self) -> FillAudit {
        audit_of(self.quote, self.buy.avg_price as int, self.sell.avg_price as int)
    }

    /// Fees of both legs.
    pub open spec fn fees(&self) -> int {
        self.buy.commission + self.sell.commission
    }

    /// Whether a position is what the fills open.
    pub open spec fn opens(&self, c: OpenCandidate, p: OpenPosition) -> bool {
        &&& p.coin@ == c.coin@
        &&& p.buy_exchange == c.buy_ex
        &&& p.sell_exchange == c.sell_ex
        &&& p.entry_buy_price == self.buy.avg_price
        &&& p.entry_sell_price == self.sell.avg_price
        &&& p.buy_filled_qty == self.buy_qty
        &&& p.sell_filled_qty == self.sell_qty
        &&& p.buy_quote_value == self.buy.quote_qty
        &&& p.sell_quote_value == self.sell.quote_qty
        &&& p.entry_buy_commission == self.buy.commission
        &&& p.entry_sell_commission == self.sell.commission
        &&& p.buy_order_id@ == self.buy.order_id@
        &&& p.sell_order_id@ == self.sell.order_id@
        &&& p.entry_spread == self.audit().entry_spread
        &&& p.open_time_ns == self.now_ns
        &&& p.entry_buy_book_bid == or_zero(c.buy_book.best_bid)
        &&& p.entry_buy_book_ask == or_zero(c.buy_book.best_ask)
        &&& p.entry_buy_book_bid_qty == c.buy_book.best_bid_qty
        &&& p.entry_buy_book_ask_qty == c.buy_book.best_ask_qty
        &&& p.entry_sell_book_bid == or_zero(c.sell_book.best_bid)
        &&& p.entry_sell_book_ask == or_zero(c.sell_book.best_ask)
        &&& p.entry_sell_book_bid_qty == c.sell_book.best_bid_qty
        &&& p.entry_sell_book_ask_qty == c.sell_book.best_ask_qty
        &&& p.funding_hours == self.funding_hours
        &&& p.leg_left is None
    }

    /// Whether a journal record tells of the fills.
    pub open spec fn is_told_by(&self, c: OpenCandidate, r: TradeRecord) -> bool {
        &&& r.timestamp_ns == self.now_ns
        &&& r.coin@ == c.coin@
        &&& r.exchange_buy == c.buy_ex
        &&& r.exchange_sell == c.sell_ex
        &&& r.trade_type == TradeType::Open
        &&& r.buy_order_id@ == self.buy.order_id@
        &&& r.sell_order_id@ == self.sell.order_id@
        &&& r.buy_fill_price == self.buy.avg_price
        &&& r.sell_fill_price == self.sell.avg_price
        &&& r.buy_filled_qty == self.buy_qty
        &&& r.sell_filled_qty == self.sell_qty
        &&& r.buy_quote_value == self.buy.quote_qty
        &&& r.sell_quote_value == self.sell.quote_qty
        &&& r.buy_commission == self.buy.commission
        &&& r.buy_commission_asset@ == "USDT"@
        &&& r.sell_commission == self.sell.commission
        &&& r.sell_commission_asset@ == "USDT"@
        &&& r.total_fee == self.fees()
        &&& r.spread_before == self.quote.spread_pct
        &&& r.spread_after == self.audit().entry_spread
        &&& r.pnl_gross == 0
        &&& r.pnl_net == -self.fees()
        &&& r.exchange_realized_pnl == 0
        &&& r.buy_book_bid == or_zero(c.buy_book.best_bid)
        &&& r.buy_book_ask == or_zero(c.buy_book.best_ask)
        &&& r.buy_book_bid_qty == c.buy_book.best_bid_qty
        &&& r.buy_book_ask_qty == c.buy_book.best_ask_qty
        &&& r.sell_book_bid == or_zero(c.sell_book.best_bid)
        &&& r.sell_book_ask == or_zero(c.sell_book.best_ask)
        &&& r.sell_book_bid_qty == c.sell_book.best_bid_qty
        &&& r.sell_book_ask_qty == c.sell_book.best_ask_qty
        &&& r.close_buy_price is None
        &&& r.close_sell_price is None
        &&& r.close_buy_commission is None
        &&& r.close_sell_commission is None
        &&& r.close_buy_order_id is None
        &&& r.close_sell_order_id is None
        &&& r.total_open_fees == Some(self.fees() as i128)
        &&& r.total_close_fees is None
        &&& r.hold_duration_secs is None
        &&& r.entry_spread == Some(self.audit().entry_spread)
        &&& r.exit_spread is None
        &&& r.funding_interval_hours == Some(self.funding_hours)
        &&& r.real_account_entry_buy is None
        &&& r.real_account_entry_sell is None
        &&& r.real_unrealized_pnl is None
        &&& r.buy_order_status is Some && r.buy_order_status->Some_0@ == "FILLED"@
        &&& r.sell_order_status is Some && r.sell_order_status->Some_0@ == "FILLED"@
    }

    fn position(&self, c: &OpenCandidate) -> (p: OpenPosition)
        ensures
            self.opens(*c, p),
            self.wf() ==> p.wf(),
    {
        OpenPosition {
            coin: c.coin.clone(),
            buy_exchange: c.buy_ex,
            sell_exchange: c.sell_ex,
            entry_buy_price: self.buy.avg_price,
            entry_sell_price: self.sell.avg_price,
            buy_filled_qty: self.buy_qty,
            sell_filled_qty: self.sell_qty,
            buy_quote_value: self.buy.quote_qty,
            sell_quote_value: self.sell.quote_qty,
            entry_buy_commission: self.buy.commission,
            entry_sell_commission: self.sell.commission,
            buy_order_id: self.buy.order_id.clone(),
            sell_order_id: self.sell.order_id.clone(),
            entry_spread: audit_fills(self.quote, self.buy.avg_price, self.sell.avg_price).entry_spread,
            open_time_ns: self.now_ns,
            entry_buy_book_bid: value_or_zero(c.buy_book.best_bid),
            entry_buy_book_ask: value_or_zero(c.buy_book.best_ask),
            entry_buy_book_bid_qty: c.buy_book.best_bid_qty,
            entry_buy_book_ask_qty: c.buy_book.best_ask_qty,
            entry_sell_book_bid: value_or_zero(c.sell_book.best_bid),
            entry_sell_book_ask: value_or_zero(c.sell_book.best_ask),
            entry_sell_book_bid_qty: c.sell_book.best_bid_qty,
            entry_sell_book_ask_qty: c.sell_book.best_ask_qty,
            funding_hours: self.funding_hours,
            leg_left: None,
        }
    }

    fn record(&self, id: u64, c: &OpenCandidate, latency: TradeLatency) -> (r: TradeRecord)
        ensures
            r.id == id,
            r.latency == Some(latency),
            self.is_told_by(*c, r),
    {
        let fees: i128 = self.buy.commission as i128 + self.sell.commission as i128;
        let entry_spread: i128 = audit_fills(
            self.quote,
            self.buy.avg_price,
            self.sell.avg_price,
        ).entry_spread;
        TradeRecord {
            id,
            timestamp_ns: self.now_ns,
            coin: c.coin.clone(),
            exchange_buy: c.buy_ex,
            exchange_sell: c.sell_ex,
            trade_type: TradeType::Open,
            buy_order_id: self.buy.order_id.clone(),
            sell_order_id: self.sell.order_id.clone(),
            buy_fill_price: self.buy.avg_price,
            sell_fill_price: self.sell.avg_price,
            buy_filled_qty: self.buy_qty,
            sell_filled_qty: self.sell_qty,
            buy_quote_value: self.buy.quote_qty,
            sell_quote_value: self.sell.quote_qty,
            buy_commission: self.buy.commission,
            buy_commission_asset: "USDT".to_owned(),
            sell_commission: self.sell.commission,
            sell_commission_asset: "USDT".to_owned(),
            total_fee: fees,
            spread_before: self.quote.spread_pct,
            spread_after: entry_spread,
            pnl_gross: 0,
            pnl_net: -fees,
            exchange_realized_pnl: 0,
            buy_book_bid: value_or_zero(c.buy_book.best_bid),
            buy_book_ask: value_or_zero(c.buy_book.best_ask),
            buy_book_bid_qty: c.buy_book.best_bid_qty,
            buy_book_ask_qty: c.buy_book.best_ask_qty,
            sell_book_bid: value_or_zero(c.sell_book.best_bid),
            sell_book_ask: value_or_zero(c.sell_book.best_ask),
            sell_book_bid_qty: c.sell_book.best_bid_qty,
            sell_book_ask_qty: c.sell_book.best_ask_qty,
            close_buy_price: None,
            close_sell_price: None,
            close_buy_commission: None,
            close_sell_commission: None,
            close_buy_order_id: None,
            close_sell_order_id: None,
            total_open_fees: Some(fees),
            total_close_fees: None,
            hold_duration_secs: None,
            entry_spread: Some(entry_spread),
            exit_spread: None,
            funding_interval_hours: Some(self.funding_hours),
            latency: Some(latency),
            real_account_entry_buy: None,
            real_account_entry_sell: None,
            real_unrealized_pnl: None,
            buy_order_status: Some("FILLED".to_owned()),
            sell_order_status: Some("FILLED".to_owned()),
        }
    }
}

/// Whether the books after an opening are those before it with the position that fills
/// open, and a journal record tells of it.
pub open spec fn open_booked(
    before: LiveTradingEngine,
    after: LiveTradingEngine,
    c: OpenCandidate,
    fills: OpenFills,
    r: TradeRecord,
) -> bool {
    &&& after.trade_count == before.trade_count + 1
    &&& after.total_fees_paid == before.total_fees_paid + fills.fees()
    &&& after.last_trade_time@ == before.last_trade_time@.insert(c.coin@, fills.now_ns)
    &&& after.open_positions@.len() == before.open_positions@.len() + 1
    &&& after.open_positions@.drop_last() == before.open_positions@
    &&& fills.opens(c, after.open_positions@.last())
    &&& after == (LiveTradingEngine {
        trade_count: after.trade_count,
        total_fees_paid: after.total_fees_paid,
        last_trade_time: after.last_trade_time,
        open_positions: after.open_positions,
        ..before
    })
    &&& r.id == after.trade_count
    &&& fills.is_told_by(c, r)
}

/// Whether the engine after an opening trade that failed is the one before it, with the
/// time of the trade noted, and halted where exposure on the exchanges is unknown.
pub open spec fn failure_noted(
    before: LiveTradingEngine,
    after: LiveTradingEngine,
    coin: Seq<char>,
    outcome: LegsOutcome,
    reversed: bool,
    now_ns: i64,
) -> bool {
    &&& after.emergency_halt == (before.emergency_halt || outcome is BothFailed || !reversed)
    &&& after.last_trade_time@ == before.last_trade_time@.insert(coin, now_ns)
    &&& after == (LiveTradingEngine {
        emergency_halt: after.emergency_halt,
        last_trade_time: after.last_trade_time,
        ..before
    })
}

/// Positions with one more on a coin that had none have one per coin.
proof fn lemma_one_more(ps: Seq<OpenPosition>, p: OpenPosition)
    requires
        one_per_coin(ps),
        !holds(ps, p.coin@),
    ensures
        one_per_coin(ps.push(p)),
{
    lemma_place_of(ps, p.coin@, 0);
}

impl LiveTradingEngine {
    /// Enters an opened position into the books: fees, trade count, the time of
    /// the last trade on the coin, and the position. Returns the journal record.
    pub fn book_open(&mut self, c: &OpenCandidate, fills: &OpenFills, latency: TradeLatency) -> (r:
        TradeRecord)
        requires
            old(self).wf(),
            old(self).has_room(),
            fills.wf(),
            !holds(old(self).open_positions@, c.coin@),
        ensures
            final(self).wf(),
            open_booked(*old(self), *final(self), *c, *fills, r),
            r.latency == Some(latency),
    {
        self.total_fees_paid = self.total_fees_paid + (fills.buy.commission as i128
            + fills.sell.commission as i128);
        self.trade_count = self.trade_count + 1;
        self.last_trade_time.insert(c.coin.clone(), fills.now_ns);
        let p = fills.position(c);
        proof {
            lemma_one_more(self.open_positions@, p);
        }
        self.open_positions.push(p);
        assert(self.open_positions@.drop_last() =~= old(self).open_positions@);
        fills.record(self.trade_count, c, latency)
    }

    /// Notes an opening trade that failed. The coin cools down; where a filled
    /// leg could not be reversed, or neither leg was filled, exposure on the
    /// exchanges is unknown and the engine halts, so that nothing more is opened.
    pub fn note_failed_open(
        &mut self,
        coin: &str,
        outcome: LegsOutcome,
        reversed: bool,
        now_ns: i64,
    )
        requires
            outcome !is BothFilled,
        ensures
            old(self).wf() ==> final(self).wf(),
            failure_noted(*old(self), *final(self), coin@, outcome, reversed, now_ns),
            final(self).emergency_halt ==> forall|c: OpenCandidate, x: OpenContext| #[trigger]
                final(self).open_outcome(c, x) is Err,
    {
        let both_failed: bool = match outcome {
            LegsOutcome::BothFailed => true,
            _ => false,
        };
        if both_failed || !reversed {
            self.emergency_halt = true;
        }
        self.last_trade_time.insert(coin.to_owned(), now_ns);
    }
}

/// A coin is not traded again before its cooldown is over.
pub proof fn law_cooldown_blocks_opening(e: LiveTradingEngine, c: OpenCandidate, x: OpenContext)
    requires
        e.last_trade_time@.contains_key(c.coin@),
        crate::clock::seconds_between(e.last_trade_time@[c.coin@] as int, x.now_ns as int)
            < e.params.trade_cooldown_secs,
    ensures
        e.open_outcome(c, x) is Err,
{
}

/// A coin with an open position is not opened again.
pub proof fn law_one_position_per_coin(e: LiveTradingEngine, c: OpenCandidate, x: OpenContext)
    requires
        holds(e.open_positions@, c.coin@),
    ensures
        e.open_outcome(c, x) == Err::<OpenPlan, OpenRefusal>(OpenRefusal::AlreadyOpen),
{
}

/// Where only one leg was filled, exactly what it was filled with goes back on
/// the exchange of that leg; where both or none were, nothing does.
pub proof fn law_only_filled_leg_is_reversed(
    buy_ex: Exchange,
    sell_ex: Exchange,
    buy: Result<UnifiedFill, String>,
    sell: Result<UnifiedFill, String>,
)
    ensures
        match legs_outcome(buy_ex, sell_ex, buy, sell) {
            LegsOutcome::BothFilled => buy is Ok && sell is Ok,
            LegsOutcome::ReverseBuy { exchange, quantity } => buy is Ok && sell is Err && exchange
                == buy_ex && quantity == buy->Ok_0.filled_qty,
            LegsOutcome::ReverseSell { exchange, quantity } => sell is Ok && buy is Err && exchange
                == sell_ex && quantity == sell->Ok_0.filled_qty,
            LegsOutcome::BothFailed => buy is Err && sell is Err,
        },
{
}

/// Alignment takes at most two orders, and an order for more than the larger
/// leg has too much never goes out.
pub proof fn law_alignment_never_overshoots(qty: int, min_qty: int, price: int)
    requires
        0 <= min_qty <= qty,
    ensures
        0 <= excess_of(qty, min_qty, price) <= qty - min_qty,
{
    crate::exchanges::exchange_info::law_round_down(qty - min_qty, super::heuristic_step(price));
}

} // verus!
