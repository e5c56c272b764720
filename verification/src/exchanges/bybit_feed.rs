//! The public Bybit feed: which symbols are followed, their funding intervals,
//! the subscriptions, and how tickers and order books become prices.
use super::binance_feed::{amount_of, compute_mid, is_text, key_of, mid_price, optional_is, prices_at};
use crate::json::{array_text, field, json_string, object_text, quoted, string_array, Fields};
use crate::price_store::{
    empty_book, normalize_symbol, CoinPrices, ExchangeStatus, FundingStore, OrderBookEntry,
    PriceStore,
};
use crate::text::{
    ends_with, lemma_texts_push, parse_amount, same_text, starts_with, texts,
};
use std::time::Instant;
use vstd::hash_set::StringHashSet;
use vstd::prelude::*;

verus! {

/// A symbol as the exchange lists it.
#[derive(Debug, Clone)]
pub struct BybitListing {
    pub symbol: String,
    pub status: String,
    pub contract_type: Option<String>,
    pub symbol_type: Option<String>,
    /// Minutes.
    pub funding_interval: Option<u64>,
}

/// Whether a symbol is a linear perpetual contract on a crypto coin, quoted in
/// USDT, that trades. Stocks, commodities and funds share tickers with coins and
/// are left out.
pub open spec fn is_followed(l: BybitListing) -> bool {
    &&& l.status@ == "Trading"@
    &&& optional_is(l.contract_type, "LinearPerpetual"@) || optional_is(
        l.contract_type,
        "PERPETUAL"@,
    )
    &&& !optional_is(l.symbol_type, "stock"@)
    &&& !optional_is(l.symbol_type, "commodity"@)
    &&& !optional_is(l.symbol_type, "ETF"@)
    &&& "USDT"@.is_suffix_of(l.symbol@)
}

/// The funding interval of a listing in whole hours, at least one; eight where
/// it states none.
pub open spec fn hours_of(l: BybitListing) -> int {
    match l.funding_interval {
        Some(m) => crate::fixed::min_of(
            crate::fixed::max_of(m as int / 60, 1),
            u32::MAX as int,
        ),
        None => 8,
    }
}

/// The symbols to follow among the first `n`.
pub open spec fn followed_symbols(list: Seq<BybitListing>, n: int) -> Seq<Seq<char>>
    decreases n,
{
    if n <= 0 {
        seq![]
    } else if is_followed(list[n - 1]) {
        followed_symbols(list, n - 1).push(list[n - 1].symbol@)
    } else {
        followed_symbols(list, n - 1)
    }
}

fn follows(l: &BybitListing) -> (r: bool)
    ensures
        r == is_followed(*l),
{
    same_text(l.status.as_str(), "Trading") && (is_text(&l.contract_type, "LinearPerpetual")
        || is_text(&l.contract_type, "PERPETUAL")) && !is_text(&l.symbol_type, "stock")
        && !is_text(&l.symbol_type, "commodity") && !is_text(&l.symbol_type, "ETF") && ends_with(
        l.symbol.as_str(),
        "USDT",
    )
}

/// The symbols to follow, in the order of the list.
pub fn select_symbols(list: &Vec<BybitListing>) -> (symbols: Vec<String>)
    ensures
        texts(symbols@) == followed_symbols(list@, list@.len() as int),
{
    let mut symbols: Vec<String> = Vec::new();
    assert(texts(symbols@) =~= seq![]);
    let mut i: usize = 0;
    while i < list.len()
        invariant
            i <= list@.len(),
            texts(symbols@) == followed_symbols(list@, i as int),
        decreases list@.len() - i,
    {
        if follows(&list[i]) {
            let symbol = list[i].symbol.clone();
            proof {
                lemma_texts_push(symbols@, symbol);
            }
            symbols.push(symbol);
        }
        i = i + 1;
    }
    symbols
}

/// The funding intervals after the first `n` listings: of each followed symbol,
/// the shortest one that is known.
pub open spec fn funding_after(
    m: Map<Seq<char>, u32>,
    list: Seq<BybitListing>,
    followed: Set<Seq<char>>,
    n: int,
) -> Map<Seq<char>, u32>
    decreases n,
{
    if n <= 0 {
        m
    } else {
        let before = funding_after(m, list, followed, n - 1);
        let l = list[n - 1];
        let key = key_of(l.symbol@);
        if !followed.contains(l.symbol@) || (before.contains_key(key) && before[key] <= hours_of(
            l,
        )) {
            before
        } else {
            before.insert(key, hours_of(l) as u32)
        }
    }
}

/// Notes the funding intervals of the followed symbols. Of two intervals the
/// shorter one stays.
pub fn note_funding(list: &Vec<BybitListing>, followed: &StringHashSet, funding: &mut FundingStore)
    ensures
        final(funding)@ == funding_after(
            old(funding)@,
            list@,
            followed@,
            list@.len() as int,
        ),
{
    let mut i: usize = 0;
    while i < list.len()
        invariant
            i <= list@.len(),
            funding@ == funding_after(old(funding)@, list@, followed@, i as int),
        decreases list@.len() - i,
    {
        let l = &list[i];
        if followed.contains(l.symbol.as_str()) {
            let key = normalize_symbol(l.symbol.as_str());
            let hours: u32 = match l.funding_interval {
                Some(m) => {
                    let h: u64 = m / 60;
                    if h < 1 {
                        1
                    } else if h > u32::MAX as u64 {
                        u32::MAX
                    } else {
                        h as u32
                    }
                },
                None => 8,
            };
            funding.lower_to(key, hours);
        }
        i = i + 1;
    }
}

/// Whether a set holds exactly the given texts.
pub open spec fn holds_texts(set: Set<Seq<char>>, v: Seq<Seq<char>>) -> bool {
    forall|s: Seq<char>| #[trigger] set.contains(s) <==> v.contains(s)
}

/// A set of the given symbols.
pub fn symbol_set(symbols: &Vec<String>) -> (set: StringHashSet)
    ensures
        holds_texts(set@, texts(symbols@)),
{
    let mut set = StringHashSet::new();
    let mut i: usize = 0;
    while i < symbols.len()
        invariant
            i <= symbols@.len(),
            forall|s: Seq<char>| #[trigger]
                set@.contains(s) <==> exists|k: int| 0 <= k < i && (#[trigger] symbols@[k])@ == s,
        decreases symbols@.len() - i,
    {
        let ghost before = set@;
        let _ = set.insert(symbols[i].clone());
        assert forall|s: Seq<char>| #[trigger] set@.contains(s) <==> exists|k: int|
            0 <= k < i + 1 && (#[trigger] symbols@[k])@ == s by {
            if before.contains(s) {
                let k = choose|k: int| 0 <= k < i && (#[trigger] symbols@[k])@ == s;
                assert(symbols@[k]@ == s);
            }
            assert(symbols@[i as int]@ == symbols@[i as int]@);
        }
        i = i + 1;
    }
    assert forall|s: Seq<char>| #[trigger] set@.contains(s) <==> texts(symbols@).contains(s) by {
        if set@.contains(s) {
            let k = choose|k: int| 0 <= k < i && (#[trigger] symbols@[k])@ == s;
            assert(texts(symbols@)[k] == s);
        }
        if texts(symbols@).contains(s) {
            let k = choose|k: int| 0 <= k < symbols@.len() && texts(symbols@)[k] == s;
            assert(symbols@[k]@ == s);
        }
    }
    set
}

/// Symbols that one subscription holds.
pub const SUBSCRIPTION_SIZE: usize = 20;

/// The topic of the ticker of a symbol.
pub open spec fn ticker_topic(symbol: Seq<char>) -> Seq<char> {
    "tickers."@ + symbol
}

/// The topics of the tickers of symbols.
pub open spec fn ticker_topics(symbols: Seq<Seq<char>>) -> Seq<Seq<char>> {
    Seq::new(symbols.len(), |i: int| ticker_topic(symbols[i]))
}

/// A subscription to topics.
pub open spec fn subscription_text(topics: Seq<Seq<char>>) -> Seq<char> {
    object_text(
        seq![
            field("args"@, array_text(quoted(topics))),
            field("op"@, json_string("subscribe"@)),
        ],
    )
}

/// A subscription to topics.
pub fn subscription(topics: &Vec<String>) -> (s: String)
    ensures
        s@ == subscription_text(texts(topics@)),
{
    let mut f = Fields::new();
    let args = string_array(topics);
    f.put("args", args.as_str());
    f.put_string("op", "subscribe");
    assert(f@ =~= seq![
        field("args"@, array_text(quoted(texts(topics@)))),
        field("op"@, json_string("subscribe"@)),
    ]);
    f.object()
}

/// The subscriptions of symbols, twenty tickers each.
pub open spec fn subscriptions_text(symbols: Seq<Seq<char>>) -> Seq<Seq<char>>
    decreases symbols.len(),
{
    if symbols.len() == 0 {
        seq![]
    } else if symbols.len() <= SUBSCRIPTION_SIZE {
        seq![subscription_text(ticker_topics(symbols))]
    } else {
        seq![subscription_text(ticker_topics(symbols.take(SUBSCRIPTION_SIZE as int)))]
            + subscriptions_text(symbols.skip(SUBSCRIPTION_SIZE as int))
    }
}

/// The subscriptions of symbols, twenty tickers each.
pub fn subscriptions(symbols: &Vec<String>) -> (frames: Vec<String>)
    ensures
        texts(frames@) == subscriptions_text(texts(symbols@)),
{
    let ghost all = texts(symbols@);
    let mut frames: Vec<String> = Vec::new();
    let mut i: usize = 0;
    assert(texts(frames@) + subscriptions_text(all.skip(0)) =~= subscriptions_text(all)) by {
        assert(all.skip(0) =~= all);
    }
    while i < symbols.len()
        invariant
            i <= symbols@.len(),
            all == texts(symbols@),
            texts(frames@) + subscriptions_text(all.skip(i as int)) == subscriptions_text(all),
        decreases symbols@.len() - i,
    {
        let mut topics: Vec<String> = Vec::new();
        let start: usize = i;
        let ghost rest = all.skip(start as int);
        while i < symbols.len() && i - start < SUBSCRIPTION_SIZE
            invariant
                start <= i <= symbols@.len(),
                i - start <= SUBSCRIPTION_SIZE,
                all == texts(symbols@),
                rest == all.skip(start as int),
                texts(topics@) =~= ticker_topics(rest.take(i - start)),
            decreases symbols@.len() - i,
        {
            let mut topic = "tickers.".to_owned();
            topic.append(symbols[i].as_str());
            proof {
                lemma_texts_push(topics@, topic);
            }
            topics.push(topic);
            i = i + 1;
        }
        let frame = subscription(&topics);
        proof {
            assert(rest.take(i - start) =~= if rest.len() <= SUBSCRIPTION_SIZE {
                rest
            } else {
                rest.take(SUBSCRIPTION_SIZE as int)
            });
            assert(rest.skip(i - start) =~= all.skip(i as int));
            lemma_texts_push(frames@, frame);
            assert(subscriptions_text(rest) =~= seq![frame@] + subscriptions_text(
                all.skip(i as int),
            ));
            assert(texts(frames@).push(frame@) + subscriptions_text(all.skip(i as int))
                =~= texts(frames@) + (seq![frame@] + subscriptions_text(all.skip(i as int))));
        }
        frames.push(frame);
    }
    assert(texts(frames@) + subscriptions_text(all.skip(i as int)) =~= texts(frames@));
    frames
}

/// What a message of the feed is about.
#[derive(Debug, Clone, Copy, PartialEq, Eq, Structural)]
pub enum Topic {
    OrderBook,
    Ticker,
    Other,
}

/// What a message of the feed is about.
pub fn topic_of(topic: &str) -> (t: Topic)
    ensures
        t == if "orderbook.1."@.is_prefix_of(topic@) {
            Topic::OrderBook
        } else if "tickers."@.is_prefix_of(topic@) {
            Topic::Ticker
        } else {
            Topic::Other
        },
{
    if starts_with(topic, "orderbook.1.") {
        Topic::OrderBook
    } else if starts_with(topic, "tickers.") {
        Topic::Ticker
    } else {
        Topic::Other
    }
}

/// A ticker as the feed writes it. What has not changed is left out.
#[derive(Debug, Clone)]
pub struct Ticker {
    pub symbol: String,
    pub last_price: Option<String>,
    pub bid: Option<String>,
    pub bid_size: Option<String>,
    pub ask: Option<String>,
    pub ask_size: Option<String>,
}

/// The amount that an optional text writes, if it writes one.
pub open spec fn written(v: Option<String>) -> Option<u64> {
    match v {
        Some(s) => amount_of(s@),
        None => None,
    }
}

/// A new value, where there is one, else the old one.
pub open spec fn newer(new: Option<u64>, old_value: Option<u64>) -> Option<u64> {
    match new {
        Some(_) => new,
        None => old_value,
    }
}

/// A new price, where there is one and it is not zero, else the old one.
pub open spec fn newer_price(new: Option<u64>, old_value: Option<u64>) -> Option<u64> {
    match new {
        Some(p) if p > 0 => new,
        _ => old_value,
    }
}

/// A book with what a ticker tells of it.
pub open spec fn ticked_book(b: OrderBookEntry, t: Ticker) -> OrderBookEntry {
    OrderBookEntry {
        best_bid: newer_price(written(t.bid), b.best_bid),
        best_bid_qty: newer(written(t.bid_size), b.best_bid_qty),
        best_ask: newer_price(written(t.ask), b.best_ask),
        best_ask_qty: newer(written(t.ask_size), b.best_ask_qty),
    }
}

/// The price after a ticker: the middle of the book where both sides are known
/// and not zero, else the last price, else none.
pub open spec fn ticked_price(b: OrderBookEntry, t: Ticker) -> int {
    match (b.best_bid, b.best_ask) {
        (Some(bid), Some(ask)) if bid > 0 && ask > 0 => mid_price(bid, ask),
        _ => match written(t.last_price) {
            Some(p) => p as int,
            None => 0,
        },
    }
}

/// Prices with a ticker of Bybit.
pub open spec fn with_ticker(p: CoinPrices, t: Ticker, now: Instant, epoch_ms: i64) -> CoinPrices {
    let book = ticked_book(p.bybit_book, t);
    let noted = CoinPrices {
        bybit_book: book,
        bybit_book_updated: Some(now),
        bybit_book_epoch_ms: Some(epoch_ms),
        ..p
    };
    if ticked_price(book, t) > 0 {
        CoinPrices {
            bybit: Some(ticked_price(book, t) as u64),
            bybit_updated: Some(now),
            ..noted
        }
    } else {
        noted
    }
}

fn read_amount(v: &Option<String>) -> (r: Option<u64>)
    ensures
        r == written(*v),
{
    match v {
        Some(s) => parse_amount(s.as_str()),
        None => None,
    }
}

fn newer_of(new: Option<u64>, old_value: Option<u64>) -> (r: Option<u64>)
    ensures
        r == newer(new, old_value),
{
    match new {
        Some(_) => new,
        None => old_value,
    }
}

fn newer_price_of(new: Option<u64>, old_value: Option<u64>) -> (r: Option<u64>)
    ensures
        r == newer_price(new, old_value),
{
    match new {
        Some(p) => if p > 0 {
            new
        } else {
            old_value
        },
        None => old_value,
    }
}

/// Prices with a ticker of Bybit, and whether it gave a price.
pub fn note_ticker(p: &CoinPrices, t: &Ticker, now: Instant, epoch_ms: i64) -> (r: (CoinPrices, bool))
    ensures
        r.0 == with_ticker(*p, *t, now, epoch_ms),
        r.1 == (ticked_price(ticked_book(p.bybit_book, *t), *t) > 0),
{
    let book = OrderBookEntry {
        best_bid: newer_price_of(read_amount(&t.bid), p.bybit_book.best_bid),
        best_bid_qty: newer_of(read_amount(&t.bid_size), p.bybit_book.best_bid_qty),
        best_ask: newer_price_of(read_amount(&t.ask), p.bybit_book.best_ask),
        best_ask_qty: newer_of(read_amount(&t.ask_size), p.bybit_book.best_ask_qty),
    };
    let last: u64 = match read_amount(&t.last_price) {
        Some(v) => v,
        None => 0,
    };
    let price: u64 = match (book.best_bid, book.best_ask) {
        (Some(bid), Some(ask)) => if bid > 0 && ask > 0 {
            compute_mid(bid, ask)
        } else {
            last
        },
        _ => last,
    };
    let mut r = *p;
    r.bybit_book = book;
    r.bybit_book_updated = Some(now);
    r.bybit_book_epoch_ms = Some(epoch_ms);
    if price > 0 {
        r.bybit = Some(price);
        r.bybit_updated = Some(now);
    }
    (r, price > 0)
}

/// The status with one more update of Bybit.
pub open spec fn bybit_counted(s: ExchangeStatus) -> ExchangeStatus {
    ExchangeStatus { bybit_updates: s.bybit_updates.wrapping_add(1), ..s }
}

/// Whether a ticker was written to a store, and whether it gave a price.
pub open spec fn ticker_applied(
    before: Map<Seq<char>, CoinPrices>,
    after: Map<Seq<char>, CoinPrices>,
    t: Ticker,
    now: Instant,
    epoch_ms: i64,
    gave_price: bool,
) -> bool {
    let key = key_of(t.symbol@);
    let known = prices_at(before, key);
    &&& after == before.insert(key, with_ticker(known, t, now, epoch_ms))
    &&& gave_price == (ticked_price(ticked_book(known.bybit_book, t), t) > 0)
}

/// Whether an order book was written to a store and counted, where the store knows the
/// coin.
pub open spec fn book_applied(
    before: Map<Seq<char>, CoinPrices>,
    after: Map<Seq<char>, CoinPrices>,
    status: ExchangeStatus,
    status_after: ExchangeStatus,
    u: BookUpdate,
    now: Instant,
    epoch_ms: i64,
) -> bool {
    let key = key_of(u.symbol@);
    if before.contains_key(key) {
        &&& after == before.insert(key, with_bybit_book(before[key], u, now, epoch_ms))
        &&& status_after == bybit_counted(status)
    } else {
        after == before && status_after == status
    }
}

/// Writes a ticker to a store, and counts it where it gave a price.
pub fn apply_ticker(
    store: &mut PriceStore,
    status: &mut ExchangeStatus,
    t: &Ticker,
    now: Instant,
    epoch_ms: i64,
) -> (gave_price: bool)
    ensures
        ticker_applied(old(store)@, final(store)@, *t, now, epoch_ms, gave_price),
        *final(status) == if gave_price {
            bybit_counted(*old(status))
        } else {
            *old(status)
        },
{
    let key = normalize_symbol(t.symbol.as_str());
    let before = store.get_or_default(key.as_str());
    let (after, gave_price) = note_ticker(&before, t, now, epoch_ms);
    store.put(key, after);
    if gave_price {
        status.bybit_updates = status.bybit_updates.wrapping_add(1);
    }
    gave_price
}

/// The best levels of an order book as the feed writes them: price and size.
#[derive(Debug, Clone)]
pub struct BookUpdate {
    pub symbol: String,
    /// Price and size of the best bid, where it is given.
    pub bid: Option<(String, String)>,
    /// Price and size of the best ask, where it is given.
    pub ask: Option<(String, String)>,
}

/// A book with an update.
pub open spec fn updated_book(b: OrderBookEntry, u: BookUpdate) -> OrderBookEntry {
    let with_bid = match u.bid {
        Some(l) => OrderBookEntry {
            best_bid: amount_of(l.0@),
            best_bid_qty: amount_of(l.1@),
            ..b
        },
        None => b,
    };
    match u.ask {
        Some(l) => OrderBookEntry {
            best_ask: amount_of(l.0@),
            best_ask_qty: amount_of(l.1@),
            ..with_bid
        },
        None => with_bid,
    }
}

/// Prices with an order book of Bybit.
pub open spec fn with_bybit_book(
    p: CoinPrices,
    u: BookUpdate,
    now: Instant,
    epoch_ms: i64,
) -> CoinPrices {
    CoinPrices {
        bybit_book: updated_book(p.bybit_book, u),
        bybit_book_updated: Some(now),
        bybit_book_epoch_ms: Some(epoch_ms),
        ..p
    }
}

/// Writes an order book to a store, and counts it, where the store knows the
/// coin.
pub fn apply_book(
    store: &mut PriceStore,
    status: &mut ExchangeStatus,
    u: &BookUpdate,
    now: Instant,
    epoch_ms: i64,
)
    ensures
        book_applied(
            old(store)@,
            final(store)@,
            *old(status),
            *final(status),
            *u,
            now,
            epoch_ms,
        ),
{
    let key = normalize_symbol(u.symbol.as_str());
    if let Some(p) = store.get(key.as_str()) {
        let mut r = p;
        if let Some(l) = &u.bid {
            r.bybit_book.best_bid = parse_amount(l.0.as_str());
            r.bybit_book.best_bid_qty = parse_amount(l.1.as_str());
        }
        if let Some(l) = &u.ask {
            r.bybit_book.best_ask = parse_amount(l.0.as_str());
            r.bybit_book.best_ask_qty = parse_amount(l.1.as_str());
        }
        r.bybit_book_updated = Some(now);
        r.bybit_book_epoch_ms = Some(epoch_ms);
        store.put(key, r);
        status.bybit_updates = status.bybit_updates.wrapping_add(1);
    }
}

/// Prices without those of Bybit.
pub open spec fn without_bybit(p: CoinPrices) -> CoinPrices {
    CoinPrices {
        bybit: None,
        bybit_updated: None,
        bybit_book: empty_book(),
        bybit_book_updated: None,
        ..p
    }
}

/// Clears all prices of Bybit, so that stale ones make no spreads.
pub fn clear_bybit_prices(store: &mut PriceStore)
    ensures
        forall|k: Seq<char>| #[trigger]
            final(store)@.contains_key(k) <==> old(store)@.contains_key(k),
        forall|k: Seq<char>| #[trigger]
            final(store)@.contains_key(k) ==> final(store)@[k] == without_bybit(old(store)@[k]),
{
    let entries = store.entries();
    let mut i: usize = 0;
    while i < entries.len()
        invariant
            i <= entries@.len(),
            crate::price_store::lists_entries(entries@, old(store)@),
            forall|k: Seq<char>| #[trigger]
                store@.contains_key(k) <==> old(store)@.contains_key(k),
            forall|n: int|
                0 <= n < i ==> store@[(#[trigger] entries@[n]).0@] == without_bybit(
                    old(store)@[entries@[n].0@],
                ),
        decreases entries@.len() - i,
    {
        let mut p = entries[i].1;
        p.bybit = None;
        p.bybit_updated = None;
        p.bybit_book = OrderBookEntry::default();
        p.bybit_book_updated = None;
        store.put(entries[i].0.clone(), p);
        i = i + 1;
    }
    assert forall|k: Seq<char>| #[trigger] store@.contains_key(k) implies store@[k]
        == without_bybit(old(store)@[k]) by {
        assert(old(store)@.contains_key(k));
        let n = choose|n: int| 0 <= n < entries@.len() && (#[trigger] entries@[n]).0@ == k;
        assert(entries@[n].0@ == k);
    }
}

/// A coin whose prices were cleared gives no spread: with nothing known of one
/// side there is none, on either exchange.
pub proof fn law_cleared_prices_make_no_spread(p: CoinPrices)
    ensures
        crate::price_store::spread_between(without_bybit(p).binance, without_bybit(p).bybit)
            is None,
        crate::price_store::spread_between(
            super::binance_feed::without_binance(p).binance,
            super::binance_feed::without_binance(p).bybit,
        ) is None,
        crate::live_trading::scan::tops_of(without_bybit(p)) is None,
        crate::live_trading::scan::tops_of(super::binance_feed::without_binance(p)) is None,
{
}

} // verus!
