//! Latest prices and order books per coin and exchange.
use crate::clock::elapsed_millis;
use crate::fixed::{pct_change, SCALE};
use crate::text::ends_with;
use dashmap::DashMap;
use std::time::Instant;
use vstd::prelude::*;

verus! {

#[verifier::external_type_specification]
#[verifier::external_body]
#[verifier::reject_recursive_types(K)]
#[verifier::reject_recursive_types(V)]
#[verifier::reject_recursive_types(S)]
pub struct ExDashMap<K, V, S>(DashMap<K, V, S>);

/// Exchange identifier.
#[derive(Debug, Clone, Copy, PartialEq, Eq, Structural, Hash)]
pub enum Exchange {
    Binance,
    Bybit,
}

impl Exchange {
    /// The name of the exchange.
    pub open spec fn name_spec(self) -> Seq<char> {
        match self {
            Exchange::Binance => "Binance"@,
            Exchange::Bybit => "Bybit"@,
        }
    }

    /// The name of the exchange.
    pub fn name(&self) -> (s: &'static str)
        ensures
            s@ == self.name_spec(),
    {
        match *self {
            Exchange::Binance => "Binance",
            Exchange::Bybit => "Bybit",
        }
    }
}

/// Best bid and ask of an order book.
#[derive(Debug, Clone, Copy)]
pub struct OrderBookEntry {
    pub best_bid: Option<u64>,
    pub best_bid_qty: Option<u64>,
    pub best_ask: Option<u64>,
    pub best_ask_qty: Option<u64>,
}

/// A book of which nothing is known.
pub open spec fn empty_book() -> OrderBookEntry {
    OrderBookEntry { best_bid: None, best_bid_qty: None, best_ask: None, best_ask_qty: None }
}

impl Default for OrderBookEntry {
    fn default() -> (b: OrderBookEntry)
        ensures
            b == empty_book(),
    {
        OrderBookEntry { best_bid: None, best_bid_qty: None, best_ask: None, best_ask_qty: None }
    }
}

/// The latest price of a coin on each exchange.
#[derive(Debug, Clone, Copy)]
pub struct CoinPrices {
    pub binance: Option<u64>,
    pub bybit: Option<u64>,
    pub binance_updated: Option<Instant>,
    pub bybit_updated: Option<Instant>,
    pub binance_book: OrderBookEntry,
    pub bybit_book: OrderBookEntry,
    pub binance_book_updated: Option<Instant>,
    pub bybit_book_updated: Option<Instant>,
    /// Epoch milliseconds of the last update of the Binance book.
    pub binance_book_epoch_ms: Option<i64>,
    /// Epoch milliseconds of the last update of the Bybit book.
    pub bybit_book_epoch_ms: Option<i64>,
}

/// A coin of which nothing is known.
pub open spec fn no_prices() -> CoinPrices {
    CoinPrices {
        binance: None,
        bybit: None,
        binance_updated: None,
        bybit_updated: None,
        binance_book: empty_book(),
        bybit_book: empty_book(),
        binance_book_updated: None,
        bybit_book_updated: None,
        binance_book_epoch_ms: None,
        bybit_book_epoch_ms: None,
    }
}

impl Default for CoinPrices {
    fn default() -> (p: CoinPrices)
        ensures
            p == no_prices(),
    {
        CoinPrices {
            binance: None,
            bybit: None,
            binance_updated: None,
            bybit_updated: None,
            binance_book: OrderBookEntry::default(),
            bybit_book: OrderBookEntry::default(),
            binance_book_updated: None,
            bybit_book_updated: None,
            binance_book_epoch_ms: None,
            bybit_book_epoch_ms: None,
        }
    }
}

/// The order book of an exchange.
pub open spec fn book_of(prices: CoinPrices, exchange: Exchange) -> OrderBookEntry {
    match exchange {
        Exchange::Binance => prices.binance_book,
        Exchange::Bybit => prices.bybit_book,
    }
}

/// The last price on an exchange.
pub open spec fn price_of(prices: CoinPrices, exchange: Exchange) -> Option<u64> {
    match exchange {
        Exchange::Binance => prices.binance,
        Exchange::Bybit => prices.bybit,
    }
}

/// The order book of an exchange.
pub fn get_order_book(prices: &CoinPrices, exchange: Exchange) -> (book: &OrderBookEntry)
    ensures
        *book == book_of(*prices, exchange),
{
    match exchange {
        Exchange::Binance => &prices.binance_book,
        Exchange::Bybit => &prices.bybit_book,
    }
}

/// When the order book of an exchange was last updated.
pub fn get_order_book_updated(prices: &CoinPrices, exchange: Exchange) -> (at: Option<Instant>)
    ensures
        at == match exchange {
            Exchange::Binance => prices.binance_book_updated,
            Exchange::Bybit => prices.bybit_book_updated,
        },
{
    match exchange {
        Exchange::Binance => prices.binance_book_updated,
        Exchange::Bybit => prices.bybit_book_updated,
    }
}

/// The last price on an exchange.
pub fn get_price(prices: &CoinPrices, exchange: Exchange) -> (price: Option<u64>)
    ensures
        price == price_of(*prices, exchange),
{
    match exchange {
        Exchange::Binance => prices.binance,
        Exchange::Bybit => prices.bybit,
    }
}

/// Age in seconds up to which a price counts as fresh.
pub const MAX_PRICE_AGE_SECS: u128 = 2;

/// A price, where it is no older than the limit. `age_millis` is the time since
/// its last update, if there was one.
pub open spec fn price_if_fresh(price: Option<u64>, age_millis: Option<u128>) -> Option<u64> {
    match age_millis {
        Some(age) if age <= MAX_PRICE_AGE_SECS * 1000 => price,
        _ => None,
    }
}

/// A price, where it is no older than the limit.
pub fn fresh_price_at(price: Option<u64>, age_millis: Option<u128>) -> (p: Option<u64>)
    ensures
        p == price_if_fresh(price, age_millis),
{
    match age_millis {
        Some(age) => if age <= MAX_PRICE_AGE_SECS * 1000 {
            price
        } else {
            None
        },
        None => None,
    }
}

/// Milliseconds since an update, if there was one.
pub(crate) fn age_of(updated: Option<Instant>) -> (age: Option<u128>)
    ensures
        age is Some <==> updated is Some,
{
    match updated {
        Some(ts) => Some(elapsed_millis(ts)),
        None => None,
    }
}

/// The prices of both exchanges, stale ones left out, given their ages.
pub fn fresh_prices_at(
    prices: &CoinPrices,
    binance_age: Option<u128>,
    bybit_age: Option<u128>,
) -> (r: (Option<u64>, Option<u64>))
    ensures
        r.0 == price_if_fresh(prices.binance, binance_age),
        r.1 == price_if_fresh(prices.bybit, bybit_age),
{
    (fresh_price_at(prices.binance, binance_age), fresh_price_at(prices.bybit, bybit_age))
}

/// The prices of both exchanges, stale ones left out: what a dead connection left
/// behind is not used.
pub fn fresh_prices(prices: &CoinPrices) -> (r: (Option<u64>, Option<u64>))
    ensures
        prices.binance_updated is None ==> r.0 is None,
        prices.bybit_updated is None ==> r.1 is None,
        exists|age: Option<u128>|
            r.0 == #[trigger] price_if_fresh(prices.binance, age) && (age is Some
                <==> prices.binance_updated is Some),
        exists|age: Option<u128>|
            r.1 == #[trigger] price_if_fresh(prices.bybit, age) && (age is Some
                <==> prices.bybit_updated is Some),
{
    fresh_prices_at(prices, age_of(prices.binance_updated), age_of(prices.bybit_updated))
}

/// The spread between two prices in percent of the lower one. Where a price is
/// missing or zero there is none, nor where it exceeds one hundred percent.
pub open spec fn spread_between(p1: Option<u64>, p2: Option<u64>) -> Option<int> {
    match (p1, p2) {
        (Some(a), Some(b)) if a > 0 && b > 0 => {
            let low = crate::fixed::min_of(a as int, b as int);
            let high = crate::fixed::max_of(a as int, b as int);
            if high - low > low {
                None
            } else {
                Some(crate::fixed::pct_change_spec(low, high))
            }
        },
        _ => None,
    }
}

/// The spread in percent between two fresh prices.
pub fn compute_spread_from_fresh(p1: Option<u64>, p2: Option<u64>) -> (r: Option<i64>)
    ensures
        match r {
            Some(s) => spread_between(p1, p2) == Some(s as int) && 0 <= s <= 100 * SCALE,
            None => spread_between(p1, p2) is None,
        },
{
    match (p1, p2) {
        (Some(a), Some(b)) => {
            if a > 0 && b > 0 {
                let low: u64 = if a <= b {
                    a
                } else {
                    b
                };
                let high: u64 = if a <= b {
                    b
                } else {
                    a
                };
                if high - low > low {
                    None
                } else {
                    let s: i128 = pct_change(low, high);
                    proof {
                        let d = high - low;
                        let p = crate::fixed::PCT_SCALE as int;
                        assert(0 <= (d * p) / (low as int) <= p) by (nonlinear_arith)
                            requires
                                0 <= d <= low,
                                low > 0,
                                p > 0,
                        ;
                    }
                    Some(s as i64)
                }
            } else {
                None
            }
        },
        _ => None,
    }
}

/// A book, where both sides are known and it is no older than the limit.
pub open spec fn book_if_fresh(
    book: OrderBookEntry,
    age_millis: Option<u128>,
    max_age_millis: u128,
) -> Option<OrderBookEntry> {
    match age_millis {
        Some(age) if age <= max_age_millis && book.best_bid is Some && book.best_ask is Some =>
            Some(book),
        _ => None,
    }
}

/// A book, where both sides are known and it is no older than the limit.
pub fn fresh_order_book_at(
    book: &OrderBookEntry,
    age_millis: Option<u128>,
    max_age_millis: u128,
) -> (r: Option<OrderBookEntry>)
    ensures
        r == book_if_fresh(*book, age_millis, max_age_millis),
{
    match age_millis {
        Some(age) => if age <= max_age_millis && book.best_bid.is_some()
            && book.best_ask.is_some() {
            Some(*book)
        } else {
            None
        },
        None => None,
    }
}

/// The order book snapshot, where it was updated within `max_age_millis`.
pub fn fresh_order_book(
    book: &OrderBookEntry,
    updated: Option<Instant>,
    max_age_millis: u128,
) -> (r: Option<OrderBookEntry>)
    ensures
        r is Some ==> r == Some(*book),
        updated is None || book.best_bid is None || book.best_ask is None ==> r is None,
        exists|age: Option<u128>|
            r == #[trigger] book_if_fresh(*book, age, max_age_millis) && (age is Some
                <==> updated is Some),
{
    let age = age_of(updated);
    fresh_order_book_at(book, age, max_age_millis)
}

/// What `str::to_uppercase` makes of a text.
pub uninterp spec fn uppercase(s: Seq<char>) -> Seq<char>;

/// `str::to_uppercase`: its result is a function of the text.
#[verifier::external_body]
fn to_upper(s: &str) -> (u: String)
    ensures
        u@ == uppercase(s@),
{
    s.to_uppercase()
}

/// A symbol without its quote currency; the quote currency itself stays.
pub open spec fn without_quote(s: Seq<char>) -> Seq<char> {
    let quote = "USDT"@;
    if quote.is_suffix_of(s) && s.len() > quote.len() {
        s.take(s.len() - quote.len())
    } else {
        s
    }
}

/// A symbol in upper case without its quote currency.
pub fn strip_quote(upper: &str) -> (base: String)
    ensures
        base@ == without_quote(upper@),
{
    let n: usize = upper.unicode_len();
    proof {
        reveal_strlit("USDT");
    }
    if ends_with(upper, "USDT") && n > 4 {
        upper.substring_char(0, n - 4).to_owned()
    } else {
        upper.to_owned()
    }
}

/// The common key of a symbol: upper case, without the USDT suffix.
pub fn normalize_symbol(raw: &str) -> (key: String)
    ensures
        key@ == without_quote(uppercase(raw@)),
{
    let upper = to_upper(raw);
    strip_quote(upper.as_str())
}

/// What a map of funding intervals holds.
pub uninterp spec fn interval_entries(m: DashMap<String, u32>) -> Map<Seq<char>, u32>;

/// `DashMap::new`: the map is empty.
#[verifier::external_body]
fn new_intervals() -> (m: DashMap<String, u32>)
    ensures
        forall|k: Seq<char>| !interval_entries(m).contains_key(k),
{
    DashMap::new()
}

/// `DashMap::get`: the value under the key, if there is one.
#[verifier::external_body]
fn get_interval(m: &DashMap<String, u32>, key: &str) -> (v: Option<u32>)
    ensures
        v == interval_entries(*m).get(key@),
{
    m.get(key).map(|r| *r.value())
}

/// `DashMap::insert`: the value stands under the key, the others stay.
#[verifier::external_body]
fn insert_interval(m: &mut DashMap<String, u32>, key: String, value: u32)
    ensures
        interval_entries(*final(m)) == interval_entries(*old(m)).insert(key@, value),
{
    m.insert(key, value);
}

/// Shortest funding interval in hours per coin.
pub struct FundingStore {
    intervals: DashMap<String, u32>,
}

/// Funding interval in hours of a coin of which none is known.
pub const DEFAULT_FUNDING_HOURS: u32 = 8;

impl FundingStore {
    pub closed spec fn view(&self) -> Map<Seq<char>, u32> {
        interval_entries(self.intervals)
    }

    /// The interval of a coin, eight hours where none is known.
    pub open spec fn hours_spec(&self, coin: Seq<char>) -> u32 {
        if self@.contains_key(coin) {
            self@[coin]
        } else {
            DEFAULT_FUNDING_HOURS
        }
    }

    /// The known interval of a coin.
    pub fn get(&self, coin: &str) -> (v: Option<u32>)
        ensures
            v == self@.get(coin@),
    {
        get_interval(&self.intervals, coin)
    }

    /// The interval of a coin, eight hours where none is known.
    pub fn hours(&self, coin: &str) -> (h: u32)
        ensures
            h == self.hours_spec(coin@),
    {
        match self.get(coin) {
            Some(h) => h,
            None => DEFAULT_FUNDING_HOURS,
        }
    }

    /// Notes an interval for a coin that has none yet.
    pub fn or_insert(&mut self, coin: String, hours: u32)
        ensures
            final(self)@ == if old(self)@.contains_key(coin@) {
                old(self)@
            } else {
                old(self)@.insert(coin@, hours)
            },
    {
        if self.get(coin.as_str()).is_none() {
            insert_interval(&mut self.intervals, coin, hours);
        }
    }

    /// Notes an interval for a coin; of two, the shorter one stays.
    pub fn lower_to(&mut self, coin: String, hours: u32)
        ensures
            final(self)@ == if old(self)@.contains_key(coin@) && old(self)@[coin@] <= hours {
                old(self)@
            } else {
                old(self)@.insert(coin@, hours)
            },
    {
        match self.get(coin.as_str()) {
            Some(known) => {
                if hours < known {
                    insert_interval(&mut self.intervals, coin, hours);
                }
            },
            None => {
                insert_interval(&mut self.intervals, coin, hours);
            },
        }
    }
}

/// A store without funding intervals.
pub fn new_funding_store() -> (s: FundingStore)
    ensures
        s@ == Map::<Seq<char>, u32>::empty(),
{
    FundingStore { intervals: new_intervals() }
}

/// What a map of prices holds.
pub uninterp spec fn price_entries(m: DashMap<String, CoinPrices>) -> Map<Seq<char>, CoinPrices>;

/// `DashMap::new`: the map is empty.
#[verifier::external_body]
fn new_prices() -> (m: DashMap<String, CoinPrices>)
    ensures
        forall|k: Seq<char>| !price_entries(m).contains_key(k),
{
    DashMap::new()
}

/// `DashMap::get`: the value under the key, if there is one.
#[verifier::external_body]
fn get_prices(m: &DashMap<String, CoinPrices>, key: &str) -> (v: Option<CoinPrices>)
    ensures
        v == price_entries(*m).get(key@),
{
    m.get(key).map(|r| *r.value())
}

/// `DashMap::insert`: the value stands under the key, the others stay.
#[verifier::external_body]
fn insert_prices(m: &mut DashMap<String, CoinPrices>, key: String, value: CoinPrices)
    ensures
        price_entries(*final(m)) == price_entries(*old(m)).insert(key@, value),
{
    m.insert(key, value);
}

/// `DashMap::iter`: every entry once, in an order that is not stated.
#[verifier::external_body]
fn list_prices(m: &DashMap<String, CoinPrices>) -> (v: Vec<(String, CoinPrices)>)
    ensures
        lists_entries(v@, price_entries(*m)),
{
    m.iter().map(|e| (e.key().clone(), *e.value())).collect()
}

/// Whether a sequence of pairs holds every entry of a map exactly once.
pub open spec fn lists_entries(
    v: Seq<(String, CoinPrices)>,
    m: Map<Seq<char>, CoinPrices>,
) -> bool {
    &&& forall|i: int|
        0 <= i < v.len() ==> m.contains_key((#[trigger] v[i]).0@) && m[v[i].0@] == v[i].1
    &&& forall|k: Seq<char>| #[trigger]
        m.contains_key(k) ==> exists|i: int| 0 <= i < v.len() && (#[trigger] v[i]).0@ == k
    &&& forall|i: int, j: int|
        0 <= i < j < v.len() ==> (#[trigger] v[i]).0@ != (#[trigger] v[j]).0@
}

/// Prices of all coins.
pub struct PriceStore {
    prices: DashMap<String, CoinPrices>,
}

impl PriceStore {
    pub closed spec fn view(&self) -> Map<Seq<char>, CoinPrices> {
        price_entries(self.prices)
    }

    /// What is known of a coin.
    pub fn get(&self, coin: &str) -> (v: Option<CoinPrices>)
        ensures
            v == self@.get(coin@),
    {
        get_prices(&self.prices, coin)
    }

    /// What is known of a coin, nothing at first.
    pub fn get_or_default(&self, coin: &str) -> (p: CoinPrices)
        ensures
            p == if self@.contains_key(coin@) {
                self@[coin@]
            } else {
                no_prices()
            },
    {
        match self.get(coin) {
            Some(p) => p,
            None => CoinPrices::default(),
        }
    }

    /// Notes what is known of a coin.
    pub fn put(&mut self, coin: String, prices: CoinPrices)
        ensures
            final(self)@ == old(self)@.insert(coin@, prices),
    {
        insert_prices(&mut self.prices, coin, prices);
    }

    /// All coins with what is known of them, in no particular order.
    pub fn entries(&self) -> (v: Vec<(String, CoinPrices)>)
        ensures
            lists_entries(v@, self@),
    {
        list_prices(&self.prices)
    }
}

/// A store without prices.
pub fn new_store() -> (s: PriceStore)
    ensures
        s@ == Map::<Seq<char>, CoinPrices>::empty(),
{
    PriceStore { prices: new_prices() }
}

/// Connection health of each exchange and the trading switches.
#[derive(Debug, Clone, Copy)]
pub struct ExchangeStatus {
    pub binance_updates: u64,
    pub bybit_updates: u64,
    pub binance_connected: bool,
    pub bybit_connected: bool,
    pub binance_enabled: bool,
    pub bybit_enabled: bool,
    /// Whether the engine may execute trades.
    pub trading_enabled: bool,
    /// Trades allowed in this session, zero for no limit.
    pub trade_limit: u32,
    /// Trades opened in this session.
    pub session_trades_taken: u32,
}

/// The status at startup: no updates, not connected, both exchanges enabled,
/// trading off, one trade allowed.
pub open spec fn startup_status() -> ExchangeStatus {
    ExchangeStatus {
        binance_updates: 0,
        bybit_updates: 0,
        binance_connected: false,
        bybit_connected: false,
        binance_enabled: true,
        bybit_enabled: true,
        trading_enabled: false,
        trade_limit: 1,
        session_trades_taken: 0,
    }
}

impl ExchangeStatus {
    /// The status at startup.
    pub fn new() -> (s: ExchangeStatus)
        ensures
            s == startup_status(),
    {
        ExchangeStatus {
            binance_updates: 0,
            bybit_updates: 0,
            binance_connected: false,
            bybit_connected: false,
            binance_enabled: true,
            bybit_enabled: true,
            trading_enabled: false,
            trade_limit: 1,
            session_trades_taken: 0,
        }
    }
}

/// The status at startup.
pub fn new_status() -> (s: ExchangeStatus)
    ensures
        s == startup_status(),
{
    ExchangeStatus::new()
}

} // verus!
