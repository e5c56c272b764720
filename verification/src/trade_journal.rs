//! Trade records and their summary. Prices, quantities and fees come from the
//! replies of the exchanges.
use crate::clock::{iso_time, iso_time_text};
use crate::fixed::{floor_div, lemma_quotient_fits, PCT_SCALE};
use crate::json::{
    decimal_text, field, int_value, json_string, object_text, pct_value, price_or_null,
    price_value, string_value, with_optional, Fields,
};
use crate::latency::{latency_fields, TradeLatency};
use crate::price_store::Exchange;
use vstd::prelude::*;

verus! {

/// Whether a record opens or closes a position.
#[derive(Debug, Clone, Copy, PartialEq, Eq, Structural)]
pub enum TradeType {
    Open,
    Close,
}

impl TradeType {
    /// The name under which the type is shown.
    pub open spec fn name_spec(self) -> Seq<char> {
        match self {
            TradeType::Open => "OPEN"@,
            TradeType::Close => "CLOSE"@,
        }
    }

    /// The name under which the type is shown.
    pub fn name(&self) -> (s: &'static str)
        ensures
            s@ == self.name_spec(),
    {
        match *self {
            TradeType::Open => "OPEN",
            TradeType::Close => "CLOSE",
        }
    }
}

/// The type of a record that does not state one.
pub fn default_trade_type() -> (t: TradeType)
    ensures
        t == TradeType::Close,
{
    TradeType::Close
}

/// A trade with its execution details.
#[derive(Debug, Clone)]
pub struct TradeRecord {
    pub id: u64,
    /// Epoch nanoseconds.
    pub timestamp_ns: i64,
    pub coin: String,
    pub exchange_buy: Exchange,
    pub exchange_sell: Exchange,
    pub trade_type: TradeType,
    pub buy_order_id: String,
    pub sell_order_id: String,
    /// Average fill price of the buy leg.
    pub buy_fill_price: u64,
    /// Average fill price of the sell leg.
    pub sell_fill_price: u64,
    pub buy_filled_qty: u64,
    pub sell_filled_qty: u64,
    /// USDT value of the fills.
    pub buy_quote_value: u128,
    pub sell_quote_value: u128,
    pub buy_commission: u64,
    pub buy_commission_asset: String,
    pub sell_commission: u64,
    pub sell_commission_asset: String,
    /// All fees that the record accounts for.
    pub total_fee: i128,
    /// Spread % at the signal.
    pub spread_before: i128,
    /// Spread % after the trade.
    pub spread_after: i128,
    /// Profit before fees.
    pub pnl_gross: i128,
    /// Profit after all fees.
    pub pnl_net: i128,
    /// Profit that the exchange reports.
    pub exchange_realized_pnl: i128,
    pub buy_book_bid: u64,
    pub buy_book_ask: u64,
    pub buy_book_bid_qty: Option<u64>,
    pub buy_book_ask_qty: Option<u64>,
    pub sell_book_bid: u64,
    pub sell_book_ask: u64,
    pub sell_book_bid_qty: Option<u64>,
    pub sell_book_ask_qty: Option<u64>,
    pub close_buy_price: Option<u64>,
    pub close_sell_price: Option<u64>,
    pub close_buy_commission: Option<u64>,
    pub close_sell_commission: Option<u64>,
    pub close_buy_order_id: Option<String>,
    pub close_sell_order_id: Option<String>,
    pub total_open_fees: Option<i128>,
    pub total_close_fees: Option<i128>,
    pub hold_duration_secs: Option<i64>,
    pub entry_spread: Option<i128>,
    pub exit_spread: Option<i128>,
    pub funding_interval_hours: Option<u32>,
    pub latency: Option<TradeLatency>,
    pub real_account_entry_buy: Option<u64>,
    pub real_account_entry_sell: Option<u64>,
    pub real_unrealized_pnl: Option<i128>,
    pub buy_order_status: Option<String>,
    pub sell_order_status: Option<String>,
}

/// Size that no profit, fee or spread of a record exceeds.
pub const RECORD_LIMIT: i128 = 1_000_000_000_000_000_000_000_000_000_000;

/// Largest number of records that are summarised.
pub const MAX_RECORDS: usize = 10_000_000;

impl TradeRecord {
    /// The spread at which the position was entered.
    pub open spec fn captured_spread(&self) -> int {
        match self.entry_spread {
            Some(s) => s as int,
            None => self.spread_before as int,
        }
    }

    /// Profits, fees and spreads are in range.
    pub open spec fn in_range(&self) -> bool {
        &&& -RECORD_LIMIT <= self.pnl_net <= RECORD_LIMIT
        &&& -RECORD_LIMIT <= self.pnl_gross <= RECORD_LIMIT
        &&& -RECORD_LIMIT <= self.total_fee <= RECORD_LIMIT
        &&& -RECORD_LIMIT <= self.captured_spread() <= RECORD_LIMIT
    }

    /// Whether profits, fees and spreads are in range.
    pub fn is_in_range(&self) -> (r: bool)
        ensures
            r == self.in_range(),
    {
        let spread: i128 = match self.entry_spread {
            Some(s) => s,
            None => self.spread_before,
        };
        -RECORD_LIMIT <= self.pnl_net && self.pnl_net <= RECORD_LIMIT && -RECORD_LIMIT
            <= self.pnl_gross && self.pnl_gross <= RECORD_LIMIT && -RECORD_LIMIT
            <= self.total_fee && self.total_fee <= RECORD_LIMIT && -RECORD_LIMIT <= spread
            && spread <= RECORD_LIMIT
    }
}

/// The name under which the journal holds a trade type.
pub open spec fn variant_text(t: TradeType) -> Seq<char> {
    match t {
        TradeType::Open => "Open"@,
        TradeType::Close => "Close"@,
    }
}

/// The JSON number of an optional number of hours.
pub open spec fn hours_value(v: Option<u32>) -> Option<Seq<char>> {
    match v {
        Some(h) => Some(crate::text::nat_text(h as nat)),
        None => None,
    }
}

/// The JSON object of an optional latency profile.
pub open spec fn latency_value(v: Option<TradeLatency>) -> Option<Seq<char>> {
    match v {
        Some(l) => Some(object_text(latency_fields(l))),
        None => None,
    }
}

/// The fields of a record that tell of its fills.
pub open spec fn fill_fields(r: TradeRecord) -> Seq<Seq<char>> {
    seq![
        field("id"@, crate::text::nat_text(r.id as nat)),
        field("timestamp"@, json_string(iso_time_text(r.timestamp_ns))),
        field("coin"@, json_string(r.coin@)),
        field("exchange_buy"@, json_string(r.exchange_buy.name_spec())),
        field("exchange_sell"@, json_string(r.exchange_sell.name_spec())),
        field("trade_type"@, json_string(variant_text(r.trade_type))),
        field("buy_order_id"@, json_string(r.buy_order_id@)),
        field("sell_order_id"@, json_string(r.sell_order_id@)),
        field("buy_fill_price"@, decimal_text(r.buy_fill_price as int)),
        field("sell_fill_price"@, decimal_text(r.sell_fill_price as int)),
        field("buy_filled_qty"@, decimal_text(r.buy_filled_qty as int)),
        field("sell_filled_qty"@, decimal_text(r.sell_filled_qty as int)),
        field("buy_quote_value"@, decimal_text(r.buy_quote_value as int)),
        field("sell_quote_value"@, decimal_text(r.sell_quote_value as int)),
    ]
}

/// The fields of a record that tell of its result and of the books.
pub open spec fn result_fields(r: TradeRecord) -> Seq<Seq<char>> {
    seq![
        field("buy_commission"@, decimal_text(r.buy_commission as int)),
        field("buy_commission_asset"@, json_string(r.buy_commission_asset@)),
        field("sell_commission"@, decimal_text(r.sell_commission as int)),
        field("sell_commission_asset"@, json_string(r.sell_commission_asset@)),
        field("total_fee"@, decimal_text(r.total_fee as int)),
        field("spread_before"@, decimal_text(r.spread_before as int)),
        field("spread_after"@, decimal_text(r.spread_after as int)),
        field("pnl_gross"@, decimal_text(r.pnl_gross as int)),
        field("pnl_net"@, decimal_text(r.pnl_net as int)),
        field("exchange_realized_pnl"@, decimal_text(r.exchange_realized_pnl as int)),
        field("buy_book_bid"@, decimal_text(r.buy_book_bid as int)),
        field("buy_book_ask"@, decimal_text(r.buy_book_ask as int)),
        field("buy_book_bid_qty"@, price_or_null(r.buy_book_bid_qty)),
        field("buy_book_ask_qty"@, price_or_null(r.buy_book_ask_qty)),
        field("sell_book_bid"@, decimal_text(r.sell_book_bid as int)),
        field("sell_book_ask"@, decimal_text(r.sell_book_ask as int)),
        field("sell_book_bid_qty"@, price_or_null(r.sell_book_bid_qty)),
        field("sell_book_ask_qty"@, price_or_null(r.sell_book_ask_qty)),
    ]
}

/// `f` with the fields of a record that are only there where they are known.
pub open spec fn with_known(f: Seq<Seq<char>>, r: TradeRecord) -> Seq<Seq<char>> {
    let f = with_optional(f, "close_buy_price"@, price_value(r.close_buy_price));
    let f = with_optional(f, "close_sell_price"@, price_value(r.close_sell_price));
    let f = with_optional(f, "close_buy_commission"@, price_value(r.close_buy_commission));
    let f = with_optional(f, "close_sell_commission"@, price_value(r.close_sell_commission));
    let f = with_optional(f, "close_buy_order_id"@, string_value(r.close_buy_order_id));
    let f = with_optional(f, "close_sell_order_id"@, string_value(r.close_sell_order_id));
    let f = with_optional(f, "total_open_fees"@, pct_value(r.total_open_fees));
    let f = with_optional(f, "total_close_fees"@, pct_value(r.total_close_fees));
    let f = with_optional(f, "hold_duration_secs"@, int_value(r.hold_duration_secs));
    let f = with_optional(f, "entry_spread"@, pct_value(r.entry_spread));
    let f = with_optional(f, "exit_spread"@, pct_value(r.exit_spread));
    let f = with_optional(f, "funding_interval_hours"@, hours_value(r.funding_interval_hours));
    let f = with_optional(f, "latency"@, latency_value(r.latency));
    let f = with_optional(f, "real_account_entry_buy"@, price_value(r.real_account_entry_buy));
    let f = with_optional(f, "real_account_entry_sell"@, price_value(r.real_account_entry_sell));
    let f = with_optional(f, "real_unrealized_pnl"@, pct_value(r.real_unrealized_pnl));
    let f = with_optional(f, "buy_order_status"@, string_value(r.buy_order_status));
    let f = with_optional(f, "sell_order_status"@, string_value(r.sell_order_status));
    f
}

/// The fields of a record as the journal holds it.
pub open spec fn journal_fields(r: TradeRecord) -> Seq<Seq<char>> {
    with_known(fill_fields(r) + result_fields(r), r)
}

impl TradeType {
    /// The name under which the journal holds the type.
    fn variant(&self) -> (s: &'static str)
        ensures
            s@ == variant_text(*self),
    {
        match *self {
            TradeType::Open => "Open",
            TradeType::Close => "Close",
        }
    }
}

impl TradeRecord {
    fn put_fills(&self, f: &mut Fields)
        requires
            self.buy_quote_value <= i128::MAX,
            self.sell_quote_value <= i128::MAX,
        ensures
            final(f)@ == old(f)@ + fill_fields(*self),
    {
        f.put_nat("id", self.id);
        let time = iso_time(self.timestamp_ns);
        f.put_string("timestamp", time.as_str());
        f.put_string("coin", self.coin.as_str());
        f.put_string("exchange_buy", self.exchange_buy.name());
        f.put_string("exchange_sell", self.exchange_sell.name());
        f.put_string("trade_type", self.trade_type.variant());
        f.put_string("buy_order_id", self.buy_order_id.as_str());
        f.put_string("sell_order_id", self.sell_order_id.as_str());
        f.put_decimal("buy_fill_price", self.buy_fill_price as i128);
        f.put_decimal("sell_fill_price", self.sell_fill_price as i128);
        f.put_decimal("buy_filled_qty", self.buy_filled_qty as i128);
        f.put_decimal("sell_filled_qty", self.sell_filled_qty as i128);
        f.put_decimal("buy_quote_value", self.buy_quote_value as i128);
        f.put_decimal("sell_quote_value", self.sell_quote_value as i128);
        assert(f@ =~= old(f)@ + fill_fields(*self));
    }

    fn put_result(&self, f: &mut Fields)
        ensures
            final(f)@ == old(f)@ + result_fields(*self),
    {
        f.put_decimal("buy_commission", self.buy_commission as i128);
        f.put_string("buy_commission_asset", self.buy_commission_asset.as_str());
        f.put_decimal("sell_commission", self.sell_commission as i128);
        f.put_string("sell_commission_asset", self.sell_commission_asset.as_str());
        f.put_decimal("total_fee", self.total_fee);
        f.put_decimal("spread_before", self.spread_before);
        f.put_decimal("spread_after", self.spread_after);
        f.put_decimal("pnl_gross", self.pnl_gross);
        f.put_decimal("pnl_net", self.pnl_net);
        f.put_decimal("exchange_realized_pnl", self.exchange_realized_pnl);
        f.put_decimal("buy_book_bid", self.buy_book_bid as i128);
        f.put_decimal("buy_book_ask", self.buy_book_ask as i128);
        f.put_price_or_null("buy_book_bid_qty", self.buy_book_bid_qty);
        f.put_price_or_null("buy_book_ask_qty", self.buy_book_ask_qty);
        f.put_decimal("sell_book_bid", self.sell_book_bid as i128);
        f.put_decimal("sell_book_ask", self.sell_book_ask as i128);
        f.put_price_or_null("sell_book_bid_qty", self.sell_book_bid_qty);
        f.put_price_or_null("sell_book_ask_qty", self.sell_book_ask_qty);
        assert(f@ =~= old(f)@ + result_fields(*self));
    }

    fn put_known(&self, f: &mut Fields)
        ensures
            final(f)@ == with_known(old(f)@, *self),
    {
        f.put_price_if("close_buy_price", self.close_buy_price);
        f.put_price_if("close_sell_price", self.close_sell_price);
        f.put_price_if("close_buy_commission", self.close_buy_commission);
        f.put_price_if("close_sell_commission", self.close_sell_commission);
        f.put_string_if("close_buy_order_id", &self.close_buy_order_id);
        f.put_string_if("close_sell_order_id", &self.close_sell_order_id);
        f.put_pct_if("total_open_fees", self.total_open_fees);
        f.put_pct_if("total_close_fees", self.total_close_fees);
        f.put_int_if("hold_duration_secs", self.hold_duration_secs);
        f.put_pct_if("entry_spread", self.entry_spread);
        f.put_pct_if("exit_spread", self.exit_spread);
        if let Some(h) = self.funding_interval_hours {
            f.put_nat("funding_interval_hours", h as u64);
        }
        if let Some(l) = &self.latency {
            let body = l.to_json();
            f.put("latency", body.as_str());
        }
        f.put_price_if("real_account_entry_buy", self.real_account_entry_buy);
        f.put_price_if("real_account_entry_sell", self.real_account_entry_sell);
        f.put_pct_if("real_unrealized_pnl", self.real_unrealized_pnl);
        f.put_string_if("buy_order_status", &self.buy_order_status);
        f.put_string_if("sell_order_status", &self.sell_order_status);
    }

    /// The record as the journal holds it: a JSON object on one line.
    pub fn to_json(&self) -> (s: String)
        requires
            self.buy_quote_value <= i128::MAX,
            self.sell_quote_value <= i128::MAX,
        ensures
            s@ == object_text(journal_fields(*self)),
    {
        let mut f = Fields::new();
        self.put_fills(&mut f);
        self.put_result(&mut f);
        assert(f@ =~= fill_fields(*self) + result_fields(*self));
        self.put_known(&mut f);
        f.object()
    }
}

/// What one exchange took part in.
#[derive(Debug, Clone, Copy, PartialEq, Eq, Structural)]
pub struct ExchangeTradeStats {
    pub trades_as_buy: u64,
    pub trades_as_sell: u64,
    pub total_fees_paid: i128,
    /// Half of the net profit of the closed trades it took part in. Where a unit
    /// cannot be halved, it counts for the exchange that was sold on.
    pub total_pnl_contribution: i128,
}

/// Aggregate of a list of trades.
#[derive(Debug, Clone, Copy, PartialEq, Eq, Structural)]
pub struct TradeSummary {
    pub total_trades: u64,
    pub winning_trades: u64,
    pub losing_trades: u64,
    /// Percentage of the closed trades that made a profit.
    pub win_rate: i128,
    pub total_pnl_gross: i128,
    pub total_pnl_net: i128,
    pub total_fees: i128,
    /// Mean entry spread of the closed trades.
    pub avg_spread_captured: i128,
    pub best_trade_pnl: i128,
    pub worst_trade_pnl: i128,
    pub closed_trades: u64,
    pub open_trades: u64,
    pub binance: ExchangeTradeStats,
    pub bybit: ExchangeTradeStats,
}

/// An exchange that took part in nothing.
pub open spec fn no_stats() -> ExchangeTradeStats {
    ExchangeTradeStats {
        trades_as_buy: 0,
        trades_as_sell: 0,
        total_fees_paid: 0,
        total_pnl_contribution: 0,
    }
}

/// How many of the first `n` trades close a position.
pub open spec fn closed_in(t: Seq<TradeRecord>, n: int) -> int
    decreases n,
{
    if n <= 0 {
        0
    } else if t[n - 1].trade_type == TradeType::Close {
        closed_in(t, n - 1) + 1
    } else {
        closed_in(t, n - 1)
    }
}

/// How many of the first `n` trades close a position with a profit.
pub open spec fn wins_in(t: Seq<TradeRecord>, n: int) -> int
    decreases n,
{
    if n <= 0 {
        0
    } else if t[n - 1].trade_type == TradeType::Close && t[n - 1].pnl_net > 0 {
        wins_in(t, n - 1) + 1
    } else {
        wins_in(t, n - 1)
    }
}

/// How many positions the first `n` trades leave open. A closing trade without
/// an opening one does not count.
pub open spec fn open_after(t: Seq<TradeRecord>, n: int) -> int
    decreases n,
{
    if n <= 0 {
        0
    } else if t[n - 1].trade_type == TradeType::Open {
        open_after(t, n - 1) + 1
    } else {
        crate::fixed::max_of(open_after(t, n - 1) - 1, 0)
    }
}

/// The sum of a value over the closing trades among the first `n`.
pub open spec fn closed_sum(
    t: Seq<TradeRecord>,
    n: int,
    value: spec_fn(TradeRecord) -> int,
) -> int
    decreases n,
{
    if n <= 0 {
        0
    } else if t[n - 1].trade_type == TradeType::Close {
        closed_sum(t, n - 1, value) + value(t[n - 1])
    } else {
        closed_sum(t, n - 1, value)
    }
}

/// The fees of the first `n` trades.
pub open spec fn fees_in(t: Seq<TradeRecord>, n: int) -> int
    decreases n,
{
    if n <= 0 {
        0
    } else {
        fees_in(t, n - 1) + t[n - 1].total_fee
    }
}

/// The best net profit of the closing trades among the first `n`.
pub open spec fn best_in(t: Seq<TradeRecord>, n: int) -> Option<int>
    decreases n,
{
    if n <= 0 {
        None
    } else if t[n - 1].trade_type == TradeType::Close {
        match best_in(t, n - 1) {
            Some(b) => Some(crate::fixed::max_of(b, t[n - 1].pnl_net as int)),
            None => Some(t[n - 1].pnl_net as int),
        }
    } else {
        best_in(t, n - 1)
    }
}

/// The worst net profit of the closing trades among the first `n`.
pub open spec fn worst_in(t: Seq<TradeRecord>, n: int) -> Option<int>
    decreases n,
{
    if n <= 0 {
        None
    } else if t[n - 1].trade_type == TradeType::Close {
        match worst_in(t, n - 1) {
            Some(b) => Some(crate::fixed::min_of(b, t[n - 1].pnl_net as int)),
            None => Some(t[n - 1].pnl_net as int),
        }
    } else {
        worst_in(t, n - 1)
    }
}

/// The part of the exchange that was bought on in the net profit of a closing
/// trade: half of it, rounded down. An opening trade has none.
pub open spec fn buy_share(t: TradeRecord) -> int {
    if t.trade_type == TradeType::Close {
        t.pnl_net as int / 2
    } else {
        0
    }
}

/// The part of the exchange that was sold on: the rest.
pub open spec fn sell_share(t: TradeRecord) -> int {
    if t.trade_type == TradeType::Close {
        t.pnl_net - buy_share(t)
    } else {
        0
    }
}

/// What an exchange took part in among the first `n` trades.
pub open spec fn stats_in(t: Seq<TradeRecord>, n: int, ex: Exchange) -> ExchangeTradeStats
    decreases n,
{
    if n <= 0 {
        no_stats()
    } else {
        let s = stats_in(t, n - 1, ex);
        let r = t[n - 1];
        let b = if r.exchange_buy == ex {
            ExchangeTradeStats {
                trades_as_buy: (s.trades_as_buy + 1) as u64,
                total_fees_paid: (s.total_fees_paid + r.buy_commission) as i128,
                total_pnl_contribution: (s.total_pnl_contribution + buy_share(r)) as i128,
                ..s
            }
        } else {
            s
        };
        if r.exchange_sell == ex {
            ExchangeTradeStats {
                trades_as_sell: (b.trades_as_sell + 1) as u64,
                total_fees_paid: (b.total_fees_paid + r.sell_commission) as i128,
                total_pnl_contribution: (b.total_pnl_contribution + sell_share(r)) as i128,
                ..b
            }
        } else {
            b
        }
    }
}

/// An integer, or zero where there is none.
pub open spec fn or_zero(v: Option<int>) -> int {
    match v {
        Some(x) => x,
        None => 0,
    }
}

/// The net profit of a trade.
pub open spec fn net_of() -> spec_fn(TradeRecord) -> int {
    |r: TradeRecord| r.pnl_net as int
}

/// The gross profit of a trade.
pub open spec fn gross_of() -> spec_fn(TradeRecord) -> int {
    |r: TradeRecord| r.pnl_gross as int
}

/// The entry spread of a trade.
pub open spec fn spread_of() -> spec_fn(TradeRecord) -> int {
    |r: TradeRecord| r.captured_spread()
}

/// Whether a summary is that of a list of trades.
pub open spec fn summarises(s: TradeSummary, t: Seq<TradeRecord>) -> bool {
    let n = t.len() as int;
    let closed = closed_in(t, n);
    &&& s.total_trades == n
    &&& s.closed_trades == closed
    &&& s.winning_trades == wins_in(t, n)
    &&& s.losing_trades == closed - wins_in(t, n)
    &&& s.open_trades == open_after(t, n)
    &&& s.total_pnl_gross == closed_sum(t, n, gross_of())
    &&& s.total_pnl_net == closed_sum(t, n, net_of())
    &&& s.total_fees == fees_in(t, n)
    &&& s.best_trade_pnl == or_zero(best_in(t, n))
    &&& s.worst_trade_pnl == or_zero(worst_in(t, n))
    &&& s.win_rate == if closed > 0 {
        wins_in(t, n) * PCT_SCALE / closed
    } else {
        0
    }
    &&& s.avg_spread_captured == if closed > 0 {
        closed_sum(t, n, spread_of()) / closed
    } else {
        0
    }
    &&& s.binance == stats_in(t, n, Exchange::Binance)
    &&& s.bybit == stats_in(t, n, Exchange::Bybit)
}

/// Counts lie between zero and the number of trades.
proof fn lemma_counts(t: Seq<TradeRecord>, n: int)
    requires
        0 <= n <= t.len(),
    ensures
        0 <= wins_in(t, n) <= closed_in(t, n) <= n,
        0 <= open_after(t, n) <= n,
    decreases n,
{
    if n > 0 {
        lemma_counts(t, n - 1);
    }
}

fn add_exchange(s: ExchangeTradeStats, r: &TradeRecord, ex: Exchange) -> (out: ExchangeTradeStats)
    requires
        s.trades_as_buy < u64::MAX,
        s.trades_as_sell < u64::MAX,
        -1_000_000_000_000_000_000_000_000_000_000_000_000 <= s.total_fees_paid
            <= 1_000_000_000_000_000_000_000_000_000_000_000_000,
        -100_000_000_000_000_000_000_000_000_000_000_000_000 <= s.total_pnl_contribution
            <= 100_000_000_000_000_000_000_000_000_000_000_000_000,
        r.in_range(),
    ensures
        ({
            let b = if r.exchange_buy == ex {
                ExchangeTradeStats {
                    trades_as_buy: (s.trades_as_buy + 1) as u64,
                    total_fees_paid: (s.total_fees_paid + r.buy_commission) as i128,
                    total_pnl_contribution: (s.total_pnl_contribution + buy_share(*r)) as i128,
                    ..s
                }
            } else {
                s
            };
            out == if r.exchange_sell == ex {
                (ExchangeTradeStats {
                    trades_as_sell: (b.trades_as_sell + 1) as u64,
                    total_fees_paid: (b.total_fees_paid + r.sell_commission) as i128,
                    total_pnl_contribution: (b.total_pnl_contribution + sell_share(*r)) as i128,
                    ..b
                })
            } else {
                b
            }
        }),
        s.trades_as_buy <= out.trades_as_buy <= s.trades_as_buy + 1,
        s.trades_as_sell <= out.trades_as_sell <= s.trades_as_sell + 1,
        s.total_fees_paid <= out.total_fees_paid <= s.total_fees_paid
            + 40_000_000_000_000_000_000,
        s.total_pnl_contribution - 2 * RECORD_LIMIT <= out.total_pnl_contribution
            <= s.total_pnl_contribution + 2 * RECORD_LIMIT,
{
    let (bought, sold): (i128, i128) = if r.trade_type == TradeType::Close {
        proof {
            lemma_quotient_fits(r.pnl_net as int, 2);
        }
        let half: i128 = floor_div(r.pnl_net, 2);
        (half, r.pnl_net - half)
    } else {
        (0, 0)
    };
    let mut out = s;
    if r.exchange_buy == ex {
        out.trades_as_buy = out.trades_as_buy + 1;
        out.total_fees_paid = out.total_fees_paid + r.buy_commission as i128;
        out.total_pnl_contribution = out.total_pnl_contribution + bought;
    }
    if r.exchange_sell == ex {
        out.trades_as_sell = out.trades_as_sell + 1;
        out.total_fees_paid = out.total_fees_paid + r.sell_commission as i128;
        out.total_pnl_contribution = out.total_pnl_contribution + sold;
    }
    out
}

/// The aggregate of a list of trades.
pub fn compute_summary(trades: &[TradeRecord]) -> (s: TradeSummary)
    requires
        trades@.len() <= MAX_RECORDS,
        forall|i: int| 0 <= i < trades@.len() ==> (#[trigger] trades@[i]).in_range(),
    ensures
        summarises(s, trades@),
{
    let none = ExchangeTradeStats {
        trades_as_buy: 0,
        trades_as_sell: 0,
        total_fees_paid: 0,
        total_pnl_contribution: 0,
    };
    let mut s = TradeSummary {
        total_trades: trades.len() as u64,
        winning_trades: 0,
        losing_trades: 0,
        win_rate: 0,
        total_pnl_gross: 0,
        total_pnl_net: 0,
        total_fees: 0,
        avg_spread_captured: 0,
        best_trade_pnl: 0,
        worst_trade_pnl: 0,
        closed_trades: 0,
        open_trades: 0,
        binance: none,
        bybit: none,
    };
    let mut total_spread: i128 = 0;
    let mut i: usize = 0;
    let ghost t = trades@;
    while i < trades.len()
        invariant
            i <= trades@.len() <= MAX_RECORDS,
            t == trades@,
            forall|j: int| 0 <= j < t.len() ==> (#[trigger] t[j]).in_range(),
            s.total_trades == t.len(),
            s.win_rate == 0,
            s.avg_spread_captured == 0,
            s.closed_trades == closed_in(t, i as int),
            s.closed_trades <= i,
            s.winning_trades == wins_in(t, i as int),
            s.losing_trades == s.closed_trades - s.winning_trades,
            s.open_trades == open_after(t, i as int),
            s.open_trades <= i,
            s.total_pnl_gross == closed_sum(t, i as int, gross_of()),
            s.total_pnl_net == closed_sum(t, i as int, net_of()),
            total_spread == closed_sum(t, i as int, spread_of()),
            s.total_fees == fees_in(t, i as int),
            -1_000_000_000_000_000_000_000_000_000_000 * i <= s.total_pnl_gross
                <= 1_000_000_000_000_000_000_000_000_000_000 * i,
            -1_000_000_000_000_000_000_000_000_000_000 * i <= s.total_pnl_net
                <= 1_000_000_000_000_000_000_000_000_000_000 * i,
            -1_000_000_000_000_000_000_000_000_000_000 * i <= total_spread
                <= 1_000_000_000_000_000_000_000_000_000_000 * i,
            -1_000_000_000_000_000_000_000_000_000_000 * i <= s.total_fees
                <= 1_000_000_000_000_000_000_000_000_000_000 * i,
            s.best_trade_pnl == or_zero(best_in(t, i as int)),
            s.worst_trade_pnl == or_zero(worst_in(t, i as int)),
            best_in(t, i as int) is Some <==> s.closed_trades > 0,
            worst_in(t, i as int) is Some <==> s.closed_trades > 0,
            s.binance == stats_in(t, i as int, Exchange::Binance),
            s.bybit == stats_in(t, i as int, Exchange::Bybit),
            s.binance.trades_as_buy <= i,
            s.binance.trades_as_sell <= i,
            s.bybit.trades_as_buy <= i,
            s.bybit.trades_as_sell <= i,
            0 <= s.binance.total_fees_paid <= 40_000_000_000_000_000_000 * i,
            0 <= s.bybit.total_fees_paid <= 40_000_000_000_000_000_000 * i,
            -2_000_000_000_000_000_000_000_000_000_000 * i <= s.binance.total_pnl_contribution
                <= 2_000_000_000_000_000_000_000_000_000_000 * i,
            -2_000_000_000_000_000_000_000_000_000_000 * i <= s.bybit.total_pnl_contribution
                <= 2_000_000_000_000_000_000_000_000_000_000 * i,
        decreases trades@.len() - i,
    {
        let r = &trades[i];
        proof {
            lemma_counts(t, i as int);
            assert(t[i as int].in_range());
        }
        s.total_fees = s.total_fees + r.total_fee;
        match r.trade_type {
            TradeType::Open => {
                s.open_trades = s.open_trades + 1;
            },
            TradeType::Close => {
                if s.open_trades > 0 {
                    s.open_trades = s.open_trades - 1;
                }
                if s.closed_trades == 0 || r.pnl_net > s.best_trade_pnl {
                    s.best_trade_pnl = r.pnl_net;
                }
                if s.closed_trades == 0 || r.pnl_net < s.worst_trade_pnl {
                    s.worst_trade_pnl = r.pnl_net;
                }
                s.closed_trades = s.closed_trades + 1;
                if r.pnl_net > 0 {
                    s.winning_trades = s.winning_trades + 1;
                } else {
                    s.losing_trades = s.losing_trades + 1;
                }
                s.total_pnl_gross = s.total_pnl_gross + r.pnl_gross;
                s.total_pnl_net = s.total_pnl_net + r.pnl_net;
                total_spread = total_spread + match r.entry_spread {
                    Some(e) => e,
                    None => r.spread_before,
                };
            },
        }
        s.binance = add_exchange(s.binance, r, Exchange::Binance);
        s.bybit = add_exchange(s.bybit, r, Exchange::Bybit);
        i = i + 1;
    }
    if s.closed_trades > 0 {
        proof {
            lemma_counts(t, t.len() as int);
            lemma_quotient_fits(s.winning_trades * PCT_SCALE, s.closed_trades as int);
        }
        s.win_rate = floor_div(s.winning_trades as i128 * PCT_SCALE, s.closed_trades as i128);
        s.avg_spread_captured = floor_div(total_spread, s.closed_trades as i128);
    }
    s
}

/// Of every list of trades: each closed trade is either a win or a loss, the
/// win rate is a percentage, the best trade is no worse than the worst, and no
/// more positions are open than were opened.
pub proof fn law_summary_is_consistent(s: TradeSummary, t: Seq<TradeRecord>)
    requires
        summarises(s, t),
    ensures
        s.winning_trades + s.losing_trades == s.closed_trades,
        0 <= s.win_rate <= PCT_SCALE,
        s.worst_trade_pnl <= s.best_trade_pnl,
        s.open_trades + s.closed_trades <= 2 * s.total_trades,
        s.open_trades <= s.total_trades - s.closed_trades,
        s.closed_trades == 0 ==> s.total_pnl_net == 0 && s.best_trade_pnl == 0,
{
    let n = t.len() as int;
    lemma_counts(t, n);
    lemma_extremes_ordered(t, n);
    lemma_open_bound(t, n);
    let closed = closed_in(t, n);
    let wins = wins_in(t, n);
    if closed > 0 {
        assert(0 <= wins * PCT_SCALE / closed <= PCT_SCALE) by (nonlinear_arith)
            requires
                0 <= wins <= closed,
                closed > 0,
                PCT_SCALE > 0,
        ;
    } else {
        lemma_nothing_closed(t, n);
    }
}

/// The parts of the two exchanges make up the whole net profit.
pub proof fn law_profit_is_split(s: TradeSummary, t: Seq<TradeRecord>)
    requires
        t.len() <= MAX_RECORDS,
        forall|i: int| 0 <= i < t.len() ==> (#[trigger] t[i]).in_range(),
        summarises(s, t),
    ensures
        s.binance.total_pnl_contribution + s.bybit.total_pnl_contribution == s.total_pnl_net,
{
    lemma_shares(t, t.len() as int);
}

proof fn lemma_shares(t: Seq<TradeRecord>, n: int)
    requires
        0 <= n <= t.len() <= MAX_RECORDS,
        forall|i: int| 0 <= i < t.len() ==> (#[trigger] t[i]).in_range(),
    ensures
        ({
            let a = stats_in(t, n, Exchange::Binance).total_pnl_contribution;
            let b = stats_in(t, n, Exchange::Bybit).total_pnl_contribution;
            &&& -2_000_000_000_000_000_000_000_000_000_000 * n <= a
                <= 2_000_000_000_000_000_000_000_000_000_000 * n
            &&& -2_000_000_000_000_000_000_000_000_000_000 * n <= b
                <= 2_000_000_000_000_000_000_000_000_000_000 * n
            &&& a + b == closed_sum(t, n, net_of())
        }),
    decreases n,
{
    if n > 0 {
        lemma_shares(t, n - 1);
        assert(t[n - 1].in_range());
        lemma_quotient_fits(t[n - 1].pnl_net as int, 2);
        assert(net_of()(t[n - 1]) == t[n - 1].pnl_net);
    }
}

proof fn lemma_extremes_ordered(t: Seq<TradeRecord>, n: int)
    requires
        0 <= n <= t.len(),
    ensures
        best_in(t, n) is Some <==> worst_in(t, n) is Some,
        best_in(t, n) is Some ==> worst_in(t, n)->Some_0 <= best_in(t, n)->Some_0,
    decreases n,
{
    if n > 0 {
        lemma_extremes_ordered(t, n - 1);
    }
}

proof fn lemma_open_bound(t: Seq<TradeRecord>, n: int)
    requires
        0 <= n <= t.len(),
    ensures
        open_after(t, n) + closed_in(t, n) <= n,
    decreases n,
{
    if n > 0 {
        lemma_open_bound(t, n - 1);
        lemma_counts(t, n - 1);
    }
}

proof fn lemma_nothing_closed(t: Seq<TradeRecord>, n: int)
    requires
        0 <= n <= t.len(),
        closed_in(t, n) == 0,
    ensures
        closed_sum(t, n, net_of()) == 0,
        best_in(t, n) is None,
    decreases n,
{
    if n > 0 {
        lemma_counts(t, n - 1);
        lemma_nothing_closed(t, n - 1);
    }
}

} // verus!
