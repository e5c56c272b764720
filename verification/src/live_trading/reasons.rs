//! Why an opportunity was not taken, in words, and the record that is logged of
//! it.
use super::open::{
    compute_usdt_value, round_trip_fee_pct, usdt_value, LegsOutcome, OpenCandidate, OpenRefusal,
    Quote,
};
use super::{LiveTradingEngine, OpenPosition};
use crate::config::{
    taker_fee, FIXED_LEVERAGE, FUNDING_PAUSE_MINUTES, MAX_SPREAD_THRESHOLD, MIN_BALANCE_USDT,
};
use crate::funding::{countdown, countdown_text};
use crate::latency::{LegFailure, Reversal, TradeLatency};
use crate::missed_trade_logger::{
    category, is_execution_failure, lemma_category, MissedTradeRecord,
};
use crate::price_store::Exchange;
use crate::text::{
    fixed_text, int_text, join, joined, lemma_texts_push, nat_text, push_fixed, push_int, push_nat,
    texts,
};
use vstd::prelude::*;

verus! {

/// The coins of positions.
pub open spec fn coins_of(ps: Seq<OpenPosition>) -> Seq<Seq<char>> {
    Seq::new(ps.len(), |i: int| ps[i].coin@)
}

/// The balance that a trade needs on each exchange: its size with a buffer of 1%.
pub open spec fn required_margin(usdt: int) -> int {
    usdt * 101 / 100
}

/// Why there is no room for another position.
pub open spec fn full_text(open: int, max: int, holding: Seq<Seq<char>>) -> Seq<char> {
    "MAX_POSITIONS_REACHED: Currently "@ + nat_text(open as nat) + "/"@ + nat_text(max as nat)
        + " open positions (holding: "@ + joined(holding, ", "@) + ")"@
}

/// Why a balance does not cover the margin of a trade.
pub open spec fn margin_text(
    label: Seq<char>,
    exchange: Exchange,
    balance: int,
    usdt: int,
) -> Seq<char> {
    label + exchange.name_spec() + " balance $"@ + fixed_text(balance, 2) + " < required margin $"@
        + fixed_text(required_margin(usdt), 2) + " for $"@ + fixed_text(usdt, 0) + " trade at "@
        + nat_text(FIXED_LEVERAGE as nat) + "x"@
}

/// What is missing in a book.
pub open spec fn empty_text(what: Seq<char>, exchange: Exchange) -> Seq<char> {
    "ORDERBOOK_EMPTY: Missing best "@ + what + " in "@ + exchange.name_spec() + " order book"@
}

/// Why the state of the engine or the funding schedule forbids a trade.
pub open spec fn gate_text(e: LiveTradingEngine, r: OpenRefusal) -> Option<Seq<char>> {
    match r {
        OpenRefusal::AlreadyOpen => Some("ALREADY_OPEN: Position already open on this coin"@),
        OpenRefusal::EmergencyHalt => Some(
            "EMERGENCY_HALT: Emergency halt active from previous failed reversal — press R to reset"@,
        ),
        OpenRefusal::Cooldown { remaining_secs } => Some(
            "COOLDOWN: Coin in cooldown ("@ + int_text(remaining_secs as int) + "s remaining of "@
                + int_text(e.params.trade_cooldown_secs as int) + "s)"@,
        ),
        OpenRefusal::MaxPositions { open } => Some(
            full_text(
                open as int,
                e.params.max_open_positions as int,
                coins_of(e.open_positions@),
            ),
        ),
        OpenRefusal::OneHourFunding { hours } => Some(
            "1H_FUNDING_COIN: Skipped coin with "@ + nat_text(hours as nat)
                + "h funding interval (high volatility)"@,
        ),
        OpenRefusal::NearFunding { seconds } => Some(
            "NEAR_FUNDING: Within "@ + int_text(FUNDING_PAUSE_MINUTES as int)
                + "m funding pause window (next funding in "@ + countdown_text(seconds as int)
                + ")"@,
        ),
        _ => None,
    }
}

/// Why the books forbid a trade.
pub open spec fn book_refusal_text(
    e: LiveTradingEngine,
    c: OpenCandidate,
    r: OpenRefusal,
) -> Option<Seq<char>> {
    match r {
        OpenRefusal::NoAsk => Some(empty_text("ask"@, c.buy_ex)),
        OpenRefusal::NoBid => Some(empty_text("bid"@, c.sell_ex)),
        OpenRefusal::Crossed { ask, bid, spread_pct } => Some(
            "ORDERBOOK_CROSSED: Buy ask ("@ + fixed_text(ask as int, 6) + ") >= Sell bid ("@
                + fixed_text(bid as int, 6) + ")"@,
        ),
        OpenRefusal::BookSpreadBelowMin { quote } => Some(
            "BOOK_SPREAD_BELOW_MIN: Real orderbook spread "@ + fixed_text(
                quote.spread_pct as int,
                3,
            ) + "% < required entry threshold "@ + fixed_text(
                e.params.entry_spread_threshold as int,
                2,
            ) + "%"@,
        ),
        OpenRefusal::BookSpreadTooHigh { quote } => Some(
            "BOOK_SPREAD_TOO_HIGH: Orderbook spread "@ + fixed_text(quote.spread_pct as int, 2)
                + "% > max sanity "@ + fixed_text(MAX_SPREAD_THRESHOLD as int, 2) + "%"@,
        ),
        OpenRefusal::NotProfitable { quote, required_pct } => Some(
            "BOOK_SPREAD_NOT_PROFITABLE: Book spread "@ + fixed_text(quote.spread_pct as int, 3)
                + "% < min required "@ + fixed_text(required_pct as int, 3) + "% (fees "@
                + fixed_text(round_trip_fee_pct(c.buy_ex, c.sell_ex), 3) + "% + exit "@
                + fixed_text(e.params.exit_spread_threshold as int, 2) + "% + 0.1% buffer)"@,
        ),
        OpenRefusal::PreFlightInvalid { ask, bid } => Some(
            "PRE_FLIGHT_BOOK_INVALID: Pre-flight check failed — Ask ("@ + fixed_text(ask as int, 6)
                + ") >= Bid ("@ + fixed_text(bid as int, 6) + ")"@,
        ),
        OpenRefusal::PreFlightCollapsed { quote } => Some(
            "PRE_FLIGHT_SPREAD_COLLAPSED: Spread dropped to "@ + fixed_text(
                quote.spread_pct as int,
                3,
            ) + "% during pre-trade checks (< "@ + fixed_text(
                e.params.entry_spread_threshold as int,
                2,
            ) + "%)"@,
        ),
        _ => None,
    }
}

/// Why balances, depth or trading rules forbid a trade.
pub open spec fn size_text(
    e: LiveTradingEngine,
    c: OpenCandidate,
    r: OpenRefusal,
) -> Option<Seq<char>> {
    match r {
        OpenRefusal::InsufficientBalance { quote } => Some(
            "INSUFFICIENT_BALANCE: Balance below minimum $"@ + fixed_text(
                MIN_BALANCE_USDT as int,
                2,
            ) + " (Binance: $"@ + fixed_text(e.binance_balance as int, 2) + ", Bybit: $"@
                + fixed_text(e.bybit_balance as int, 2) + ")"@,
        ),
        OpenRefusal::NoAskQty { quote } => Some(empty_text("ask qty"@, c.buy_ex)),
        OpenRefusal::NoBidQty { quote } => Some(empty_text("bid qty"@, c.sell_ex)),
        OpenRefusal::LowLiquidity { quote, usdt, buy_usdt, sell_usdt } => Some(
            "LOW_LIQUIDITY: Orderbook depth allows only $"@ + fixed_text(usdt as int, 2)
                + " trade size (< $5.00 min). BuyLiq: $"@ + fixed_text(buy_usdt as int, 2)
                + ", SellLiq: $"@ + fixed_text(sell_usdt as int, 2),
        ),
        OpenRefusal::ZeroQuantity { quote } => Some(
            "QTY_ZERO: Calculated quantity rounded to 0.0 (price=$"@ + fixed_text(
                quote.ask as int,
                4,
            ) + ")"@,
        ),
        OpenRefusal::BelowMinNotional { quote, quantity, min_notional } => Some(
            "BELOW_MIN_NOTIONAL: Notional $"@ + fixed_text(
                usdt_value(quote.ask as int, quantity as int),
                2,
            ) + "/"@ + fixed_text(usdt_value(quote.bid as int, quantity as int), 2) + " < min $"@
                + fixed_text(min_notional as int, 2) + " (qty="@ + fixed_text(quantity as int, 4)
                + ", prices="@ + fixed_text(quote.ask as int, 6) + "/"@ + fixed_text(
                quote.bid as int,
                6,
            ) + ")"@,
        ),
        OpenRefusal::MarginBuy { quote, usdt } => Some(
            margin_text(
                "INSUFFICIENT_MARGIN_BUY: "@,
                c.buy_ex,
                e.balance_of(c.buy_ex) as int,
                usdt as int,
            ),
        ),
        OpenRefusal::MarginSell { quote, usdt } => Some(
            margin_text(
                "INSUFFICIENT_MARGIN_SELL: "@,
                c.sell_ex,
                e.balance_of(c.sell_ex) as int,
                usdt as int,
            ),
        ),
        _ => None,
    }
}

/// Why an opportunity was not taken, in words; nothing where it is passed over
/// in silence.
pub open spec fn refusal_text(
    e: LiveTradingEngine,
    c: OpenCandidate,
    r: OpenRefusal,
) -> Option<Seq<char>> {
    match gate_text(e, r) {
        Some(t) => Some(t),
        None => match book_refusal_text(e, c, r) {
            Some(t) => Some(t),
            None => size_text(e, c, r),
        },
    }
}

fn push_amount(s: &mut String, v: u64, places: usize)
    requires
        places <= 8,
    ensures
        final(s)@ == old(s)@ + fixed_text(v as int, places as nat),
{
    push_fixed(s, v as i128, places);
}

fn no_entry(what: &str, exchange: Exchange) -> (s: String)
    ensures
        s@ == empty_text(what@, exchange),
{
    let mut s = "ORDERBOOK_EMPTY: Missing best ".to_owned();
    s.append(what);
    s.append(" in ");
    s.append(exchange.name());
    s.append(" order book");
    s
}

fn low_margin(label: &str, exchange: Exchange, balance: i64, usdt: u64) -> (s: String)
    ensures
        s@ == margin_text(label@, exchange, balance as int, usdt as int),
{
    let mut s = label.to_owned();
    s.append(exchange.name());
    s.append(" balance $");
    push_fixed(&mut s, balance as i128, 2);
    s.append(" < required margin $");
    push_fixed(&mut s, usdt as i128 * 101 / 100, 2);
    s.append(" for $");
    push_amount(&mut s, usdt, 0);
    s.append(" trade at ");
    push_nat(&mut s, FIXED_LEVERAGE as u128);
    s.append("x");
    s
}

impl LiveTradingEngine {
    /// The coins of the open positions.
    pub fn open_coins(&self) -> (v: Vec<String>)
        ensures
            texts(v@) == coins_of(self.open_positions@),
    {
        let mut v: Vec<String> = Vec::new();
        let mut i: usize = 0;
        while i < self.open_positions.len()
            invariant
                i <= self.open_positions@.len(),
                texts(v@) =~= coins_of(self.open_positions@).take(i as int),
            decreases self.open_positions@.len() - i,
        {
            let coin = self.open_positions[i].coin.clone();
            proof {
                lemma_texts_push(v@, coin);
            }
            v.push(coin);
            i = i + 1;
        }
        assert(coins_of(self.open_positions@).take(i as int) =~= coins_of(self.open_positions@));
        v
    }

    /// Why there is no room for another position.
    pub fn full_reason(&self, open: usize) -> (s: String)
        ensures
            s@ == full_text(
                open as int,
                self.params.max_open_positions as int,
                coins_of(self.open_positions@),
            ),
    {
        let mut s = "MAX_POSITIONS_REACHED: Currently ".to_owned();
        push_nat(&mut s, open as u128);
        s.append("/");
        push_nat(&mut s, self.params.max_open_positions as u128);
        s.append(" open positions (holding: ");
        let holding = join(&self.open_coins(), ", ");
        s.append(holding.as_str());
        s.append(")");
        s
    }

    fn gate_reason(&self, r: &OpenRefusal) -> (t: Option<String>)
        ensures
            match t {
                Some(s) => gate_text(*self, *r) == Some(s@),
                None => gate_text(*self, *r) is None,
            },
    {
        match *r {
            OpenRefusal::AlreadyOpen => Some(
                "ALREADY_OPEN: Position already open on this coin".to_owned(),
            ),
            OpenRefusal::EmergencyHalt => Some(
                "EMERGENCY_HALT: Emergency halt active from previous failed reversal — press R to reset".to_owned(),
            ),
            OpenRefusal::Cooldown { remaining_secs } => {
                let mut s = "COOLDOWN: Coin in cooldown (".to_owned();
                push_int(&mut s, remaining_secs);
                s.append("s remaining of ");
                push_int(&mut s, self.params.trade_cooldown_secs);
                s.append("s)");
                Some(s)
            },
            OpenRefusal::MaxPositions { open } => Some(self.full_reason(open)),
            OpenRefusal::OneHourFunding { hours } => {
                let mut s = "1H_FUNDING_COIN: Skipped coin with ".to_owned();
                push_nat(&mut s, hours as u128);
                s.append("h funding interval (high volatility)");
                Some(s)
            },
            OpenRefusal::NearFunding { seconds } => {
                let mut s = "NEAR_FUNDING: Within ".to_owned();
                push_int(&mut s, FUNDING_PAUSE_MINUTES);
                s.append("m funding pause window (next funding in ");
                let left = countdown(seconds);
                s.append(left.as_str());
                s.append(")");
                Some(s)
            },
            _ => None,
        }
    }

    fn book_reason(&self, c: &OpenCandidate, r: &OpenRefusal) -> (t: Option<String>)
        ensures
            match t {
                Some(s) => book_refusal_text(*self, *c, *r) == Some(s@),
                None => book_refusal_text(*self, *c, *r) is None,
            },
    {
        match *r {
            OpenRefusal::NoAsk => Some(no_entry("ask", c.buy_ex)),
            OpenRefusal::NoBid => Some(no_entry("bid", c.sell_ex)),
            OpenRefusal::Crossed { ask, bid, spread_pct: _ } => {
                let mut s = "ORDERBOOK_CROSSED: Buy ask (".to_owned();
                push_amount(&mut s, ask, 6);
                s.append(") >= Sell bid (");
                push_amount(&mut s, bid, 6);
                s.append(")");
                Some(s)
            },
            OpenRefusal::BookSpreadBelowMin { quote } => {
                let mut s = "BOOK_SPREAD_BELOW_MIN: Real orderbook spread ".to_owned();
                push_fixed(&mut s, quote.spread_pct, 3);
                s.append("% < required entry threshold ");
                push_fixed(&mut s, self.params.entry_spread_threshold as i128, 2);
                s.append("%");
                Some(s)
            },
            OpenRefusal::BookSpreadTooHigh { quote } => {
                let mut s = "BOOK_SPREAD_TOO_HIGH: Orderbook spread ".to_owned();
                push_fixed(&mut s, quote.spread_pct, 2);
                s.append("% > max sanity ");
                push_fixed(&mut s, MAX_SPREAD_THRESHOLD as i128, 2);
                s.append("%");
                Some(s)
            },
            OpenRefusal::NotProfitable { quote, required_pct } => {
                let fees: i128 = (taker_fee(c.buy_ex) as i128 + taker_fee(c.sell_ex) as i128
                    + taker_fee(c.buy_ex) as i128 + taker_fee(c.sell_ex) as i128) * 100;
                let mut s = "BOOK_SPREAD_NOT_PROFITABLE: Book spread ".to_owned();
                push_fixed(&mut s, quote.spread_pct, 3);
                s.append("% < min required ");
                push_fixed(&mut s, required_pct, 3);
                s.append("% (fees ");
                push_fixed(&mut s, fees, 3);
                s.append("% + exit ");
                push_fixed(&mut s, self.params.exit_spread_threshold as i128, 2);
                s.append("% + 0.1% buffer)");
                Some(s)
            },
            OpenRefusal::PreFlightInvalid { ask, bid } => {
                let mut s = "PRE_FLIGHT_BOOK_INVALID: Pre-flight check failed — Ask (".to_owned();
                push_amount(&mut s, ask, 6);
                s.append(") >= Bid (");
                push_amount(&mut s, bid, 6);
                s.append(")");
                Some(s)
            },
            OpenRefusal::PreFlightCollapsed { quote } => {
                let mut s = "PRE_FLIGHT_SPREAD_COLLAPSED: Spread dropped to ".to_owned();
                push_fixed(&mut s, quote.spread_pct, 3);
                s.append("% during pre-trade checks (< ");
                push_fixed(&mut s, self.params.entry_spread_threshold as i128, 2);
                s.append("%)");
                Some(s)
            },
            _ => None,
        }
    }

    fn size_reason(&self, c: &OpenCandidate, r: &OpenRefusal) -> (t: Option<String>)
        ensures
            match t {
                Some(s) => size_text(*self, *c, *r) == Some(s@),
                None => size_text(*self, *c, *r) is None,
            },
    {
        match *r {
            OpenRefusal::InsufficientBalance { quote: _ } => {
                let mut s = "INSUFFICIENT_BALANCE: Balance below minimum $".to_owned();
                push_fixed(&mut s, MIN_BALANCE_USDT as i128, 2);
                s.append(" (Binance: $");
                push_fixed(&mut s, self.binance_balance as i128, 2);
                s.append(", Bybit: $");
                push_fixed(&mut s, self.bybit_balance as i128, 2);
                s.append(")");
                Some(s)
            },
            OpenRefusal::NoAskQty { quote: _ } => Some(no_entry("ask qty", c.buy_ex)),
            OpenRefusal::NoBidQty { quote: _ } => Some(no_entry("bid qty", c.sell_ex)),
            OpenRefusal::LowLiquidity { quote: _, usdt, buy_usdt, sell_usdt } => {
                let mut s = "LOW_LIQUIDITY: Orderbook depth allows only $".to_owned();
                push_amount(&mut s, usdt, 2);
                s.append(" trade size (< $5.00 min). BuyLiq: $");
                push_fixed(&mut s, buy_usdt, 2);
                s.append(", SellLiq: $");
                push_fixed(&mut s, sell_usdt, 2);
                Some(s)
            },
            OpenRefusal::ZeroQuantity { quote } => {
                let mut s = "QTY_ZERO: Calculated quantity rounded to 0.0 (price=$".to_owned();
                push_amount(&mut s, quote.ask, 4);
                s.append(")");
                Some(s)
            },
            OpenRefusal::BelowMinNotional { quote, quantity, min_notional } => {
                let buy_notional: i128 = compute_usdt_value(quote.ask, quantity);
                let sell_notional: i128 = compute_usdt_value(quote.bid, quantity);
                let mut s = "BELOW_MIN_NOTIONAL: Notional $".to_owned();
                push_fixed(&mut s, buy_notional, 2);
                s.append("/");
                push_fixed(&mut s, sell_notional, 2);
                s.append(" < min $");
                push_amount(&mut s, min_notional, 2);
                s.append(" (qty=");
                push_amount(&mut s, quantity, 4);
                s.append(", prices=");
                push_amount(&mut s, quote.ask, 6);
                s.append("/");
                push_amount(&mut s, quote.bid, 6);
                s.append(")");
                Some(s)
            },
            OpenRefusal::MarginBuy { quote: _, usdt } => Some(
                low_margin(
                    "INSUFFICIENT_MARGIN_BUY: ",
                    c.buy_ex,
                    self.get_balance(c.buy_ex),
                    usdt,
                ),
            ),
            OpenRefusal::MarginSell { quote: _, usdt } => Some(
                low_margin(
                    "INSUFFICIENT_MARGIN_SELL: ",
                    c.sell_ex,
                    self.get_balance(c.sell_ex),
                    usdt,
                ),
            ),
            _ => None,
        }
    }

    /// Why an opportunity was not taken, in words; nothing where it is passed
    /// over in silence.
    pub fn refusal_reason(&self, c: &OpenCandidate, r: &OpenRefusal) -> (t: Option<String>)
        ensures
            match t {
                Some(s) => refusal_text(*self, *c, *r) == Some(s@),
                None => refusal_text(*self, *c, *r) is None,
            },
    {
        if let Some(s) = self.gate_reason(r) {
            return Some(s);
        }
        if let Some(s) = self.book_reason(c, r) {
            return Some(s);
        }
        self.size_reason(c, r)
    }
}

/// The prices and the book spread that are logged of an opportunity.
#[derive(Debug, Clone, Copy, PartialEq, Eq, Structural)]
pub struct MissedQuote {
    pub buy_price: u64,
    pub sell_price: u64,
    pub book_spread_pct: Option<i128>,
}

/// The quotes of a refusal.
pub open spec fn quoted(q: Quote) -> MissedQuote {
    MissedQuote { buy_price: q.ask, sell_price: q.bid, book_spread_pct: Some(q.spread_pct) }
}

/// What is logged of a refusal: the quotes it is about, else the prices of the
/// candidate.
pub open spec fn missed_quote(c: OpenCandidate, r: OpenRefusal) -> MissedQuote {
    match r {
        OpenRefusal::Crossed { ask, bid, spread_pct } => quoted(Quote { ask, bid, spread_pct }),
        OpenRefusal::BookSpreadBelowMin { quote } => quoted(quote),
        OpenRefusal::BookSpreadTooHigh { quote } => quoted(quote),
        OpenRefusal::NotProfitable { quote, required_pct } => quoted(quote),
        OpenRefusal::InsufficientBalance { quote } => quoted(quote),
        OpenRefusal::NoAskQty { quote } => quoted(quote),
        OpenRefusal::NoBidQty { quote } => quoted(quote),
        OpenRefusal::LowLiquidity { quote, usdt, buy_usdt, sell_usdt } => quoted(quote),
        OpenRefusal::ZeroQuantity { quote } => quoted(quote),
        OpenRefusal::BelowMinNotional { quote, quantity, min_notional } => quoted(quote),
        OpenRefusal::MarginBuy { quote, usdt } => quoted(quote),
        OpenRefusal::MarginSell { quote, usdt } => quoted(quote),
        OpenRefusal::PreFlightInvalid { ask, bid } => MissedQuote {
            buy_price: ask,
            sell_price: bid,
            book_spread_pct: None,
        },
        OpenRefusal::PreFlightCollapsed { quote } => quoted(quote),
        _ => MissedQuote {
            buy_price: c.buy_price,
            sell_price: c.sell_price,
            book_spread_pct: None,
        },
    }
}

fn quote_values(q: Quote) -> (m: MissedQuote)
    ensures
        m == quoted(q),
{
    MissedQuote { buy_price: q.ask, sell_price: q.bid, book_spread_pct: Some(q.spread_pct) }
}

fn quote_missed(c: &OpenCandidate, r: &OpenRefusal) -> (m: MissedQuote)
    ensures
        m == missed_quote(*c, *r),
{
    match *r {
        OpenRefusal::Crossed { ask, bid, spread_pct } => quote_values(
            Quote { ask, bid, spread_pct },
        ),
        OpenRefusal::BookSpreadBelowMin { quote } => quote_values(quote),
        OpenRefusal::BookSpreadTooHigh { quote } => quote_values(quote),
        OpenRefusal::NotProfitable { quote, required_pct: _ } => quote_values(quote),
        OpenRefusal::InsufficientBalance { quote } => quote_values(quote),
        OpenRefusal::NoAskQty { quote } => quote_values(quote),
        OpenRefusal::NoBidQty { quote } => quote_values(quote),
        OpenRefusal::LowLiquidity { quote, usdt: _, buy_usdt: _, sell_usdt: _ } => quote_values(
            quote,
        ),
        OpenRefusal::ZeroQuantity { quote } => quote_values(quote),
        OpenRefusal::BelowMinNotional { quote, quantity: _, min_notional: _ } => quote_values(
            quote,
        ),
        OpenRefusal::MarginBuy { quote, usdt: _ } => quote_values(quote),
        OpenRefusal::MarginSell { quote, usdt: _ } => quote_values(quote),
        OpenRefusal::PreFlightInvalid { ask, bid } => MissedQuote {
            buy_price: ask,
            sell_price: bid,
            book_spread_pct: None,
        },
        OpenRefusal::PreFlightCollapsed { quote } => quote_values(quote),
        _ => MissedQuote {
            buy_price: c.buy_price,
            sell_price: c.sell_price,
            book_spread_pct: None,
        },
    }
}

/// The latency profile that is logged of a refusal: that of the candidate where
/// the last look at the quotes turned it down.
pub open spec fn missed_latency(c: OpenCandidate, r: OpenRefusal) -> Option<TradeLatency> {
    match r {
        OpenRefusal::PreFlightInvalid { ask, bid } => Some(c.latency),
        OpenRefusal::PreFlightCollapsed { quote } => Some(c.latency),
        _ => None,
    }
}

impl LiveTradingEngine {
    /// Whether a record tells why a candidate was not taken.
    pub open spec fn tells_missed(
        &self,
        m: MissedTradeRecord,
        c: OpenCandidate,
        q: MissedQuote,
        reason: Seq<char>,
        latency: Option<TradeLatency>,
        now_ns: i64,
    ) -> bool {
        &&& m.timestamp_ns == now_ns
        &&& m.coin@ == c.coin@
        &&& m.spread_pct == c.spread
        &&& m.threshold_pct == self.params.entry_spread_threshold
        &&& m.buy_exchange == c.buy_ex
        &&& m.sell_exchange == c.sell_ex
        &&& m.buy_price == q.buy_price
        &&& m.sell_price == q.sell_price
        &&& m.book_spread_pct == q.book_spread_pct
        &&& m.reason@ == reason
        &&& m.binance_balance == self.binance_balance
        &&& m.bybit_balance == self.bybit_balance
        &&& m.latency == latency
    }

    /// The record of an opportunity that was not taken, with its latency profile.
    pub fn log_missed_with_latency(
        &self,
        c: &OpenCandidate,
        quote: MissedQuote,
        reason: String,
        latency: Option<TradeLatency>,
        now_ns: i64,
    ) -> (m: MissedTradeRecord)
        ensures
            self.tells_missed(m, *c, quote, reason@, latency, now_ns),
    {
        MissedTradeRecord {
            timestamp_ns: now_ns,
            coin: c.coin.clone(),
            spread_pct: c.spread,
            threshold_pct: self.params.entry_spread_threshold as i128,
            buy_exchange: c.buy_ex,
            sell_exchange: c.sell_ex,
            buy_price: quote.buy_price,
            sell_price: quote.sell_price,
            book_spread_pct: quote.book_spread_pct,
            reason,
            binance_balance: self.binance_balance,
            bybit_balance: self.bybit_balance,
            latency,
        }
    }

    /// The record of an opportunity that was not taken.
    pub fn log_missed(&self, c: &OpenCandidate, quote: MissedQuote, reason: String, now_ns: i64) -> (m:
        MissedTradeRecord)
        ensures
            self.tells_missed(m, *c, quote, reason@, None, now_ns),
    {
        self.log_missed_with_latency(c, quote, reason, None, now_ns)
    }

    /// The record of a refusal, none where the opportunity is passed over in
    /// silence.
    pub fn missed_open(&self, c: &OpenCandidate, r: &OpenRefusal, now_ns: i64) -> (m: Option<
        MissedTradeRecord,
    >)
        ensures
            match m {
                Some(rec) => refusal_text(*self, *c, *r) is Some && self.tells_missed(
                    rec,
                    *c,
                    missed_quote(*c, *r),
                    refusal_text(*self, *c, *r)->Some_0,
                    missed_latency(*c, *r),
                    now_ns,
                ),
                None => refusal_text(*self, *c, *r) is None,
            },
    {
        let reason = match self.refusal_reason(c, r) {
            Some(s) => s,
            None => {
                return None;
            },
        };
        let quote = quote_missed(c, r);
        let latency: Option<TradeLatency> = match *r {
            OpenRefusal::PreFlightInvalid { ask: _, bid: _ } => Some(c.latency.clone()),
            OpenRefusal::PreFlightCollapsed { quote: _ } => Some(c.latency.clone()),
            _ => None,
        };
        Some(self.log_missed_with_latency(c, quote, reason, latency, now_ns))
    }
}

/// How an opening trade failed: the errors, the round trips, and the reversal of
/// the filled leg.
pub struct OpenFailure {
    pub outcome: LegsOutcome,
    /// The error of the failed leg, or that of the buy leg where both failed.
    pub error: String,
    /// The error of the sell leg where both failed.
    pub other_error: String,
    pub buy_rtt_ms: i64,
    pub sell_rtt_ms: i64,
    pub reversal_rtt_ms: i64,
    pub reversed: bool,
}

/// Why a leg failed and how the other was reversed.
pub open spec fn leg_failed_text(
    failed: Seq<char>,
    failed_on: Exchange,
    error: Seq<char>,
    failed_rtt: int,
    filled: Seq<char>,
    filled_on: Exchange,
    filled_rtt: int,
    reversal_rtt: int,
) -> Seq<char> {
    "LEG_FILL_FAILED: "@ + failed + " on "@ + failed_on.name_spec() + " failed ("@ + error
        + ") [RTT: "@ + failed_on.name_spec() + "="@ + int_text(failed_rtt) + "ms, "@
        + filled_on.name_spec() + "="@ + int_text(filled_rtt) + "ms] — reversed "@
        + filled_on.name_spec() + " "@ + filled + " (rev: "@ + int_text(reversal_rtt) + "ms)"@
}

/// Why an opening trade failed, in words; nothing where it did not.
pub open spec fn failure_text(c: OpenCandidate, f: OpenFailure) -> Option<Seq<char>> {
    match f.outcome {
        LegsOutcome::BothFilled => None,
        LegsOutcome::ReverseBuy { exchange, quantity } => Some(
            leg_failed_text(
                "Sell"@,
                c.sell_ex,
                f.error@,
                f.sell_rtt_ms as int,
                "Buy"@,
                c.buy_ex,
                f.buy_rtt_ms as int,
                f.reversal_rtt_ms as int,
            ),
        ),
        LegsOutcome::ReverseSell { exchange, quantity } => Some(
            leg_failed_text(
                "Buy"@,
                c.buy_ex,
                f.error@,
                f.buy_rtt_ms as int,
                "Sell"@,
                c.sell_ex,
                f.sell_rtt_ms as int,
                f.reversal_rtt_ms as int,
            ),
        ),
        LegsOutcome::BothFailed => if c.buy_ex == Exchange::Binance {
            Some(
                "BOTH_LEGS_FAILED: Buy err: "@ + f.error@ + " ("@ + int_text(f.buy_rtt_ms as int)
                    + "ms), Sell err: "@ + f.other_error@ + " ("@ + int_text(f.sell_rtt_ms as int)
                    + "ms)"@,
            )
        } else {
            Some(
                "BOTH_LEGS_FAILED: Buy ("@ + c.buy_ex.name_spec() + "): "@ + f.error@ + " ["@
                    + int_text(f.buy_rtt_ms as int) + "ms], Sell ("@ + c.sell_ex.name_spec()
                    + "): "@ + f.other_error@ + " ["@ + int_text(f.sell_rtt_ms as int) + "ms]"@,
            )
        },
    }
}

/// The error that the audit of a failed opening trade shows.
pub open spec fn audit_error(c: OpenCandidate, f: OpenFailure) -> Seq<char> {
    match f.outcome {
        LegsOutcome::BothFilled => ""@,
        LegsOutcome::ReverseBuy { exchange, quantity } => "Sell on "@ + c.sell_ex.name_spec()
            + " failed: "@ + f.error@,
        LegsOutcome::ReverseSell { exchange, quantity } => "Buy on "@ + c.buy_ex.name_spec()
            + " failed: "@ + f.error@,
        LegsOutcome::BothFailed => if c.buy_ex == Exchange::Binance {
            "Buy err: "@ + f.error@ + ", Sell err: "@ + f.other_error@
        } else {
            c.buy_ex.name_spec() + " Buy err: "@ + f.error@ + ", "@ + c.sell_ex.name_spec()
                + " Sell err: "@ + f.other_error@
        },
    }
}

fn push_leg_failed(
    failed: &str,
    failed_on: Exchange,
    error: &str,
    failed_rtt: i64,
    filled: &str,
    filled_on: Exchange,
    filled_rtt: i64,
    reversal_rtt: i64,
) -> (s: String)
    ensures
        s@ == leg_failed_text(
            failed@,
            failed_on,
            error@,
            failed_rtt as int,
            filled@,
            filled_on,
            filled_rtt as int,
            reversal_rtt as int,
        ),
{
    let mut s = "LEG_FILL_FAILED: ".to_owned();
    s.append(failed);
    s.append(" on ");
    s.append(failed_on.name());
    s.append(" failed (");
    s.append(error);
    s.append(") [RTT: ");
    s.append(failed_on.name());
    s.append("=");
    push_int(&mut s, failed_rtt);
    s.append("ms, ");
    s.append(filled_on.name());
    s.append("=");
    push_int(&mut s, filled_rtt);
    s.append("ms] — reversed ");
    s.append(filled_on.name());
    s.append(" ");
    s.append(filled);
    s.append(" (rev: ");
    push_int(&mut s, reversal_rtt);
    s.append("ms)");
    s
}

impl OpenFailure {
    /// Why an opening trade failed, in words; nothing where it did not.
    pub fn reason(&self, c: &OpenCandidate) -> (t: Option<String>)
        ensures
            match t {
                Some(s) => failure_text(*c, *self) == Some(s@),
                None => failure_text(*c, *self) is None,
            },
    {
        match self.outcome {
            LegsOutcome::BothFilled => None,
            LegsOutcome::ReverseBuy { exchange: _, quantity: _ } => Some(
                push_leg_failed(
                    "Sell",
                    c.sell_ex,
                    self.error.as_str(),
                    self.sell_rtt_ms,
                    "Buy",
                    c.buy_ex,
                    self.buy_rtt_ms,
                    self.reversal_rtt_ms,
                ),
            ),
            LegsOutcome::ReverseSell { exchange: _, quantity: _ } => Some(
                push_leg_failed(
                    "Buy",
                    c.buy_ex,
                    self.error.as_str(),
                    self.buy_rtt_ms,
                    "Sell",
                    c.sell_ex,
                    self.sell_rtt_ms,
                    self.reversal_rtt_ms,
                ),
            ),
            LegsOutcome::BothFailed => {
                if c.buy_ex == Exchange::Binance {
                    let mut s = "BOTH_LEGS_FAILED: Buy err: ".to_owned();
                    s.append(self.error.as_str());
                    s.append(" (");
                    push_int(&mut s, self.buy_rtt_ms);
                    s.append("ms), Sell err: ");
                    s.append(self.other_error.as_str());
                    s.append(" (");
                    push_int(&mut s, self.sell_rtt_ms);
                    s.append("ms)");
                    Some(s)
                } else {
                    let mut s = "BOTH_LEGS_FAILED: Buy (".to_owned();
                    s.append(c.buy_ex.name());
                    s.append("): ");
                    s.append(self.error.as_str());
                    s.append(" [");
                    push_int(&mut s, self.buy_rtt_ms);
                    s.append("ms], Sell (");
                    s.append(c.sell_ex.name());
                    s.append("): ");
                    s.append(self.other_error.as_str());
                    s.append(" [");
                    push_int(&mut s, self.sell_rtt_ms);
                    s.append("ms]");
                    Some(s)
                }
            },
        }
    }

    fn error_text(&self, c: &OpenCandidate) -> (s: String)
        ensures
            s@ == audit_error(*c, *self),
    {
        match self.outcome {
            LegsOutcome::BothFilled => "".to_owned(),
            LegsOutcome::ReverseBuy { exchange: _, quantity: _ } => {
                let mut s = "Sell on ".to_owned();
                s.append(c.sell_ex.name());
                s.append(" failed: ");
                s.append(self.error.as_str());
                s
            },
            LegsOutcome::ReverseSell { exchange: _, quantity: _ } => {
                let mut s = "Buy on ".to_owned();
                s.append(c.buy_ex.name());
                s.append(" failed: ");
                s.append(self.error.as_str());
                s
            },
            LegsOutcome::BothFailed => {
                if c.buy_ex == Exchange::Binance {
                    let mut s = "Buy err: ".to_owned();
                    s.append(self.error.as_str());
                    s.append(", Sell err: ");
                    s.append(self.other_error.as_str());
                    s
                } else {
                    let mut s = c.buy_ex.name().to_owned();
                    s.append(" Buy err: ");
                    s.append(self.error.as_str());
                    s.append(", ");
                    s.append(c.sell_ex.name());
                    s.append(" Sell err: ");
                    s.append(self.other_error.as_str());
                    s
                }
            },
        }
    }

    /// What the audit of a failed opening trade is about.
    pub fn audit(&self, c: &OpenCandidate) -> (l: LegFailure)
        ensures
            l.coin@ == c.coin@,
            l.buy_exchange == c.buy_ex,
            l.sell_exchange == c.sell_ex,
            l.buy_ok == (self.outcome is ReverseBuy || self.outcome is BothFilled),
            l.sell_ok == (self.outcome is ReverseSell || self.outcome is BothFilled),
            l.buy_rtt_ms == self.buy_rtt_ms,
            l.sell_rtt_ms == self.sell_rtt_ms,
            l.error@ == audit_error(*c, *self),
            l.reversal == match self.outcome {
                LegsOutcome::ReverseBuy { exchange, quantity } => Some(
                    Reversal { exchange, rtt_ms: self.reversal_rtt_ms, ok: self.reversed },
                ),
                LegsOutcome::ReverseSell { exchange, quantity } => Some(
                    Reversal { exchange, rtt_ms: self.reversal_rtt_ms, ok: self.reversed },
                ),
                _ => None,
            },
    {
        let (buy_ok, sell_ok, reversed_on): (bool, bool, Option<Exchange>) = match self.outcome {
            LegsOutcome::BothFilled => (true, true, None),
            LegsOutcome::ReverseBuy { exchange, quantity: _ } => (true, false, Some(exchange)),
            LegsOutcome::ReverseSell { exchange, quantity: _ } => (false, true, Some(exchange)),
            LegsOutcome::BothFailed => (false, false, None),
        };
        LegFailure {
            coin: c.coin.clone(),
            buy_exchange: c.buy_ex,
            sell_exchange: c.sell_ex,
            buy_ok,
            sell_ok,
            buy_rtt_ms: self.buy_rtt_ms,
            sell_rtt_ms: self.sell_rtt_ms,
            error: self.error_text(c),
            reversal: match reversed_on {
                Some(exchange) => Some(
                    Reversal { exchange, rtt_ms: self.reversal_rtt_ms, ok: self.reversed },
                ),
                None => None,
            },
        }
    }
}

proof fn lemma_begins(word: Seq<char>, head: Seq<char>, reason: Seq<char>)
    requires
        word.is_prefix_of(head),
        head.is_prefix_of(reason),
    ensures
        word.is_prefix_of(reason),
        forall|k: int| 0 <= k < head.len() ==> reason[k] == head[k],
{
    assert forall|k: int| 0 <= k < head.len() implies reason[k] == head[k] by {
        assert(reason.subrange(0, head.len() as int)[k] == head[k]);
    }
    assert forall|k: int| 0 <= k < word.len() implies reason[k] == word[k] by {
        assert(head.subrange(0, word.len() as int)[k] == word[k]);
    }
    assert(reason.subrange(0, word.len() as int) =~= word);
}

broadcast proof fn lemma_prefix_grows(head: Seq<char>, s: Seq<char>, t: Seq<char>)
    requires
        head.is_prefix_of(s),
    ensures
        #[trigger] head.is_prefix_of(s + t),
{
    assert((s + t).subrange(0, head.len() as int) =~= s.subrange(0, head.len() as int));
}

proof fn lemma_failure_head(c: OpenCandidate, f: OpenFailure)
    requires
        f.outcome !is BothFilled,
    ensures
        failure_text(c, f) is Some,
        failure_head(c, f).is_prefix_of(failure_text(c, f)->Some_0),
{
    broadcast use lemma_prefix_grows;

    let head = failure_head(c, f);
    assert(head.subrange(0, head.len() as int) =~= head);
}

/// How the text of a failed opening trade begins.
spec fn failure_head(c: OpenCandidate, f: OpenFailure) -> Seq<char> {
    if f.outcome !is BothFailed {
        "LEG_FILL_FAILED: "@
    } else if c.buy_ex == Exchange::Binance {
        "BOTH_LEGS_FAILED: Buy err: "@
    } else {
        "BOTH_LEGS_FAILED: Buy ("@
    }
}

proof fn lemma_leg_word(reason: Seq<char>)
    requires
        "LEG_FILL_FAILED: "@.is_prefix_of(reason),
    ensures
        category(reason) == "LEG_FILL_FAILED"@,
{
    reveal_strlit("LEG_FILL_FAILED");
    reveal_strlit("LEG_FILL_FAILED: ");
    let word = "LEG_FILL_FAILED"@;
    let head = "LEG_FILL_FAILED: "@;
    assert(head.subrange(0, word.len() as int) =~= word);
    lemma_begins(word, head, reason);
    lemma_category(word, reason);
}

proof fn lemma_both_word(head: Seq<char>, reason: Seq<char>)
    requires
        head == "BOTH_LEGS_FAILED: Buy err: "@ || head == "BOTH_LEGS_FAILED: Buy ("@,
        head.is_prefix_of(reason),
    ensures
        category(reason) == "BOTH_LEGS_FAILED"@,
{
    reveal_strlit("BOTH_LEGS_FAILED");
    reveal_strlit("BOTH_LEGS_FAILED: Buy err: ");
    reveal_strlit("BOTH_LEGS_FAILED: Buy (");
    let word = "BOTH_LEGS_FAILED"@;
    assert(head.subrange(0, word.len() as int) =~= word);
    lemma_begins(word, head, reason);
    lemma_category(word, reason);
}

/// A failed opening trade is always logged: why it failed is of a category that
/// is never held back.
pub proof fn law_failures_are_logged(c: OpenCandidate, f: OpenFailure)
    requires
        f.outcome !is BothFilled,
    ensures
        failure_text(c, f) is Some,
        is_execution_failure(category(failure_text(c, f)->Some_0)),
{
    lemma_failure_head(c, f);
    let reason = failure_text(c, f)->Some_0;
    if f.outcome !is BothFailed {
        lemma_leg_word(reason);
    } else {
        lemma_both_word(failure_head(c, f), reason);
    }
}

} // verus!
