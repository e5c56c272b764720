//! What is told of trades that were not made.
use super::amounts::{is_quotient, lemma_quotient};
use crate::live_trading::open::{OpenCandidate, OpenRefusal, Quote};
use crate::live_trading::reasons::{
    coins_of, missed_latency, missed_quote, refusal_text, required_margin, MissedQuote,
};
use crate::live_trading::LiveTradingEngine;
use crate::missed_trade_logger::MissedTradeRecord;
use crate::price_store::Exchange;
use vstd::prelude::*;

verus! {

/// Whether logged prices are those of a quote.
pub open spec fn shows(m: MissedQuote, q: Quote) -> bool {
    m.buy_price == q.ask && m.sell_price == q.bid && m.book_spread_pct == Some(q.spread_pct)
}

/// A refusal that is about quotes logs these, the ask as what it would have been bought
/// at and the bid as what it would have been sold at; every other logs the prices of the
/// candidate and no spread. Only one that came at the last look logs the delays.
pub proof fn law_missed_quote(c: OpenCandidate, r: OpenRefusal)
    ensures
        ({
            let m = missed_quote(c, r);
            let plain = m.buy_price == c.buy_price && m.sell_price == c.sell_price
                && m.book_spread_pct is None;
            match r {
                OpenRefusal::Crossed { ask, bid, spread_pct } => m.buy_price == ask && m.sell_price
                    == bid && m.book_spread_pct == Some(spread_pct),
                OpenRefusal::PreFlightInvalid { ask, bid } => m.buy_price == ask && m.sell_price
                    == bid && m.book_spread_pct is None,
                OpenRefusal::BookSpreadBelowMin { quote } => shows(m, quote),
                OpenRefusal::BookSpreadTooHigh { quote } => shows(m, quote),
                OpenRefusal::NotProfitable { quote, required_pct } => shows(m, quote),
                OpenRefusal::InsufficientBalance { quote } => shows(m, quote),
                OpenRefusal::NoAskQty { quote } => shows(m, quote),
                OpenRefusal::NoBidQty { quote } => shows(m, quote),
                OpenRefusal::LowLiquidity { quote, usdt, buy_usdt, sell_usdt } => shows(m, quote),
                OpenRefusal::ZeroQuantity { quote } => shows(m, quote),
                OpenRefusal::BelowMinNotional { quote, quantity, min_notional } => shows(m, quote),
                OpenRefusal::MarginBuy { quote, usdt } => shows(m, quote),
                OpenRefusal::MarginSell { quote, usdt } => shows(m, quote),
                OpenRefusal::PreFlightCollapsed { quote } => shows(m, quote),
                _ => plain,
            }
        }),
        missed_latency(c, r) is Some <==> r is PreFlightInvalid || r is PreFlightCollapsed,
        missed_latency(c, r) is Some ==> missed_latency(c, r)->Some_0 == c.latency,
{
}

/// A missed trade is logged with the exchanges of the candidate on their sides, with the
/// balances of the engine on their exchanges, and with the threshold that it was held to.
pub proof fn law_missed_record(
    e: LiveTradingEngine,
    m: MissedTradeRecord,
    c: OpenCandidate,
    r: OpenRefusal,
    reason: Seq<char>,
    now_ns: i64,
)
    requires
        e.tells_missed(m, c, missed_quote(c, r), reason, missed_latency(c, r), now_ns),
    ensures
        m.coin@ == c.coin@,
        m.buy_exchange == c.buy_ex,
        m.sell_exchange == c.sell_ex,
        m.spread_pct == c.spread,
        m.threshold_pct == e.params.entry_spread_threshold,
        m.binance_balance == e.binance_balance,
        m.bybit_balance == e.bybit_balance,
        m.reason@ == reason,
        m.timestamp_ns == now_ns,
        r is AlreadyOpen || r is Cooldown || r is NoAsk || r is NoBid ==> m.buy_price == c.buy_price
            && m.sell_price == c.sell_price,
{
}

/// The margin that a trade needs is its size and one percent more, rounded down.
pub proof fn law_required_margin(usdt: int)
    ensures
        is_quotient(required_margin(usdt), usdt * 101, 100),
        usdt >= 0 ==> required_margin(usdt) >= usdt,
{
    lemma_quotient(usdt * 101, 100);
}

/// What is missing in a book is told of the exchange whose book it is: the ask of where
/// coins would be bought, the bid of where they would be sold.
pub proof fn law_missing_side(e: LiveTradingEngine, c: OpenCandidate)
    ensures
        refusal_text(e, c, OpenRefusal::NoAsk) == Some(
            "ORDERBOOK_EMPTY: Missing best "@ + "ask"@ + " in "@ + (if c.buy_ex
                == Exchange::Binance {
                "Binance"@
            } else {
                "Bybit"@
            }) + " order book"@,
        ),
        refusal_text(e, c, OpenRefusal::NoBid) == Some(
            "ORDERBOOK_EMPTY: Missing best "@ + "bid"@ + " in "@ + (if c.sell_ex
                == Exchange::Binance {
                "Binance"@
            } else {
                "Bybit"@
            }) + " order book"@,
        ),
{
}

/// Every refusal has its reason in words.
pub proof fn law_every_refusal_is_told(e: LiveTradingEngine, c: OpenCandidate, r: OpenRefusal)
    ensures
        r is AlreadyOpen || r is EmergencyHalt || r is Cooldown || r is MaxPositions
            || r is OneHourFunding || r is NearFunding || r is NoAsk || r is NoBid || r is Crossed
            || r is BookSpreadBelowMin || r is BookSpreadTooHigh || r is NotProfitable
            || r is PreFlightInvalid || r is PreFlightCollapsed || r is InsufficientBalance
            || r is NoAskQty || r is NoBidQty || r is LowLiquidity || r is ZeroQuantity
            || r is BelowMinNotional || r is MarginBuy || r is MarginSell ==> refusal_text(e, c, r)
            is Some,
{
}

/// The coins that are held are named in the order of their positions.
pub proof fn law_held_coins(e: LiveTradingEngine, i: int)
    requires
        0 <= i < e.open_positions@.len(),
    ensures
        coins_of(e.open_positions@).len() == e.open_positions@.len(),
        coins_of(e.open_positions@)[i] == e.open_positions@[i].coin@,
{
}

} // verus!
