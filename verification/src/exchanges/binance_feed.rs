//! The public Binance feed: which symbols are followed, and how book tickers
//! become prices. Tickers that arrive together are coalesced, so that only the
//! latest of each coin reaches the store.
use crate::price_store::{
    no_prices, normalize_symbol, uppercase, without_quote, CoinPrices, ExchangeStatus,
    FundingStore, OrderBookEntry, PriceStore,
};
use crate::text::{amount_units, parse_amount, same_text};
use std::time::Instant;
use vstd::hash_map::StringHashMap;
use vstd::hash_set::StringHashSet;
use vstd::prelude::*;

verus! {

/// A symbol as the exchange lists it.
#[derive(Debug, Clone)]
pub struct BinanceListing {
    pub symbol: String,
    pub status: String,
    pub contract_type: Option<String>,
    pub margin_asset: Option<String>,
}

/// Whether an optional text is there and is the given one.
pub open spec fn optional_is(v: Option<String>, t: Seq<char>) -> bool {
    v is Some && v->Some_0@ == t
}

/// Whether an optional text is there and is the given one.
pub(crate) fn is_text(v: &Option<String>, t: &str) -> (r: bool)
    ensures
        r == optional_is(*v, t@),
{
    match v {
        Some(s) => same_text(s.as_str(), t),
        None => false,
    }
}

/// Whether a symbol is a perpetual contract margined in USDT that trades.
pub open spec fn is_perpetual(l: BinanceListing) -> bool {
    &&& l.status@ == "TRADING"@
    &&& optional_is(l.contract_type, "PERPETUAL"@)
    &&& optional_is(l.margin_asset, "USDT"@)
}

/// The common key of a symbol.
pub open spec fn key_of(symbol: Seq<char>) -> Seq<char> {
    without_quote(uppercase(symbol))
}

/// Whether a symbol is listed as one to follow among the first `n`.
pub open spec fn followed_in(list: Seq<BinanceListing>, symbol: Seq<char>, n: int) -> bool {
    exists|i: int| 0 <= i < n && (#[trigger] list[i]).symbol@ == symbol && is_perpetual(list[i])
}

/// Whether a coin is among the first `n` listed ones to follow.
pub open spec fn coin_in(list: Seq<BinanceListing>, coin: Seq<char>, n: int) -> bool {
    exists|i: int|
        0 <= i < n && key_of((#[trigger] list[i]).symbol@) == coin && is_perpetual(list[i])
}

/// The symbols to follow. Their coins get a funding interval of eight hours
/// where none is known.
pub fn perpetual_symbols(list: &Vec<BinanceListing>, funding: &mut FundingStore) -> (set:
    StringHashSet)
    ensures
        forall|s: Seq<char>| #[trigger]
            set@.contains(s) <==> followed_in(list@, s, list@.len() as int),
        forall|c: Seq<char>| #[trigger]
            final(funding)@.contains_key(c) <==> old(funding)@.contains_key(c) || coin_in(
                list@,
                c,
                list@.len() as int,
            ),
        forall|c: Seq<char>| #[trigger]
            final(funding)@.contains_key(c) ==> final(funding)@[c] == if old(
                funding,
            )@.contains_key(c) {
                old(funding)@[c]
            } else {
                8
            },
{
    let mut set = StringHashSet::new();
    let mut i: usize = 0;
    while i < list.len()
        invariant
            i <= list@.len(),
            forall|s: Seq<char>| #[trigger] set@.contains(s) <==> followed_in(list@, s, i as int),
            forall|c: Seq<char>| #[trigger]
                funding@.contains_key(c) <==> old(funding)@.contains_key(c) || coin_in(
                    list@,
                    c,
                    i as int,
                ),
            forall|c: Seq<char>| #[trigger]
                funding@.contains_key(c) ==> funding@[c] == if old(funding)@.contains_key(c) {
                    old(funding)@[c]
                } else {
                    8
                },
        decreases list@.len() - i,
    {
        let l = &list[i];
        let ghost before = set@;
        let ghost funded = funding@;
        if same_text(l.status.as_str(), "TRADING") && is_text(&l.contract_type, "PERPETUAL")
            && is_text(&l.margin_asset, "USDT") {
            let _ = set.insert(l.symbol.clone());
            let key = normalize_symbol(l.symbol.as_str());
            funding.or_insert(key, 8);
        }
        proof {
            assert forall|s: Seq<char>| #[trigger] set@.contains(s) <==> followed_in(
                list@,
                s,
                i + 1,
            ) by {
                assert(before.contains(s) <==> followed_in(list@, s, i as int));
                if followed_in(list@, s, i + 1) {
                    let k = choose|k: int|
                        0 <= k < i + 1 && (#[trigger] list@[k]).symbol@ == s && is_perpetual(list@[k]);
                    if k < i {
                        assert(followed_in(list@, s, i as int));
                    }
                }
                if followed_in(list@, s, i as int) {
                    let k = choose|k: int|
                        0 <= k < i && (#[trigger] list@[k]).symbol@ == s && is_perpetual(list@[k]);
                    assert(followed_in(list@, s, i + 1));
                }
            }
            assert forall|c: Seq<char>| #[trigger]
                funding@.contains_key(c) <==> old(funding)@.contains_key(c) || coin_in(
                list@,
                c,
                i + 1,
            ) by {
                assert(funded.contains_key(c) <==> old(funding)@.contains_key(c) || coin_in(
                    list@,
                    c,
                    i as int,
                ));
                if coin_in(list@, c, i + 1) {
                    let k = choose|k: int|
                        0 <= k < i + 1 && key_of((#[trigger] list@[k]).symbol@) == c
                            && is_perpetual(list@[k]);
                    if k < i {
                        assert(coin_in(list@, c, i as int));
                    }
                }
                if coin_in(list@, c, i as int) {
                    let k = choose|k: int|
                        0 <= k < i && key_of((#[trigger] list@[k]).symbol@) == c && is_perpetual(
                            list@[k],
                        );
                    assert(coin_in(list@, c, i + 1));
                }
            }
        }
        i = i + 1;
    }
    set
}

/// A book ticker as the feed writes it.
#[derive(Debug, Clone)]
pub struct BookTicker {
    pub symbol: String,
    pub bid: String,
    pub bid_qty: String,
    pub ask: String,
    pub ask_qty: String,
}

/// The amount that a text writes, if it writes one.
pub open spec fn amount_of(text: Seq<char>) -> Option<u64> {
    match amount_units(text) {
        Some(v) => Some(v as u64),
        None => None,
    }
}

/// The book that a ticker tells of.
pub open spec fn ticker_book(t: BookTicker) -> OrderBookEntry {
    OrderBookEntry {
        best_bid: amount_of(t.bid@),
        best_bid_qty: amount_of(t.bid_qty@),
        best_ask: amount_of(t.ask@),
        best_ask_qty: amount_of(t.ask_qty@),
    }
}

/// The latest book of each coin among tickers that arrived together.
pub struct QuoteBatch {
    index: StringHashMap<usize>,
    quotes: Vec<(String, OrderBookEntry)>,
}

impl QuoteBatch {
    pub closed spec fn view(&self) -> Map<Seq<char>, OrderBookEntry> {
        Map::new(
            |k: Seq<char>| self.index@.contains_key(k),
            |k: Seq<char>| self.quotes@[self.index@[k] as int].1,
        )
    }

    /// Every coin stands at its place, and every place belongs to its coin.
    pub closed spec fn wf(&self) -> bool {
        &&& forall|k: Seq<char>| #[trigger]
            self.index@.contains_key(k) ==> self.index@[k] < self.quotes@.len()
                && self.quotes@[self.index@[k] as int].0@ == k
        &&& forall|i: int|
            0 <= i < self.quotes@.len() ==> self.index@.contains_key(
                (#[trigger] self.quotes@[i]).0@,
            ) && self.index@[self.quotes@[i].0@] == i
    }

    /// A batch without tickers.
    pub fn new() -> (b: QuoteBatch)
        ensures
            b.wf(),
            b@ == Map::<Seq<char>, OrderBookEntry>::empty(),
    {
        let b = QuoteBatch { index: StringHashMap::new(), quotes: Vec::new() };
        assert(b@ =~= Map::<Seq<char>, OrderBookEntry>::empty());
        b
    }

    /// The number of coins.
    pub fn len(&self) -> (n: usize)
        requires
            self.wf(),
        ensures
            self@.dom().finite(),
            n == self@.dom().len(),
    {
        proof {
            let coins = Seq::new(self.quotes@.len(), |i: int| self.quotes@[i].0@);
            assert forall|i: int, j: int|
                0 <= i < coins.len() && 0 <= j < coins.len() && i != j implies coins[i]
                != coins[j] by {
                assert(self.index@[self.quotes@[i].0@] == i);
                assert(self.index@[self.quotes@[j].0@] == j);
            }
            coins.unique_seq_to_set();
            assert forall|k: Seq<char>| coins.to_set().contains(k) <==> self@.dom().contains(k) by {
                if self@.dom().contains(k) {
                    assert(coins[self.index@[k] as int] == k);
                }
                if coins.to_set().contains(k) {
                    let i = choose|i: int| 0 <= i < coins.len() && coins[i] == k;
                    assert(self.quotes@[i].0@ == k);
                }
            }
            assert(coins.to_set() =~= self@.dom());
        }
        self.quotes.len()
    }

    fn put(&mut self, coin: String, book: OrderBookEntry)
        requires
            old(self).wf(),
        ensures
            final(self).wf(),
            final(self)@ == old(self)@.insert(coin@, book),
    {
        let known: Option<usize> = match self.index.get(coin.as_str()) {
            Some(i) => Some(*i),
            None => None,
        };
        match known {
            Some(i) => {
                let ghost before = self.quotes@;
                self.quotes.set(i, (coin, book));
                assert forall|k: Seq<char>| #[trigger] self.index@.contains_key(k) implies
                    self.quotes@[self.index@[k] as int].0@ == k by {
                    assert(before[self.index@[k] as int].0@ == k);
                }
                assert forall|j: int| 0 <= j < self.quotes@.len() implies self.index@.contains_key(
                    (#[trigger] self.quotes@[j]).0@,
                ) && self.index@[self.quotes@[j].0@] == j by {
                    assert(before[j].0@ == self.quotes@[j].0@);
                }
            },
            None => {
                let i: usize = self.quotes.len();
                let ghost before = *self;
                self.quotes.push((coin.clone(), book));
                self.index.insert(coin, i);
                assert forall|j: int| 0 <= j < self.quotes@.len() implies self.index@.contains_key(
                    (#[trigger] self.quotes@[j]).0@,
                ) && self.index@[self.quotes@[j].0@] == j by {
                    if j < i {
                        assert(self.quotes@[j] == before.quotes@[j]);
                    }
                }
            },
        }
        assert(self@ =~= old(self)@.insert(coin@, book));
    }

    /// Takes a ticker into the batch, in place of an earlier one of its coin.
    /// Symbols that are not followed are left out.
    pub fn parse_book_ticker(&mut self, t: &BookTicker, followed: &StringHashSet)
        requires
            old(self).wf(),
        ensures
            final(self).wf(),
            final(self)@ == if followed@.contains(t.symbol@) {
                old(self)@.insert(key_of(t.symbol@), ticker_book(*t))
            } else {
                old(self)@
            },
    {
        if followed.contains(t.symbol.as_str()) {
            let key = normalize_symbol(t.symbol.as_str());
            let book = OrderBookEntry {
                best_bid: parse_amount(t.bid.as_str()),
                best_bid_qty: parse_amount(t.bid_qty.as_str()),
                best_ask: parse_amount(t.ask.as_str()),
                best_ask_qty: parse_amount(t.ask_qty.as_str()),
            };
            self.put(key, book);
        }
    }

    /// Writes the batch to a store, and counts it.
    pub fn apply(
        &self,
        store: &mut PriceStore,
        status: &mut ExchangeStatus,
        now: Instant,
        epoch_ms: i64,
    )
        requires
            self.wf(),
        ensures
            forall|k: Seq<char>| #[trigger]
                final(store)@.contains_key(k) <==> old(store)@.contains_key(k)
                    || self@.contains_key(k),
            forall|k: Seq<char>| #[trigger]
                final(store)@.contains_key(k) ==> final(store)@[k] == if self@.contains_key(k) {
                    with_binance_book(prices_at(old(store)@, k), self@[k], now, epoch_ms)
                } else {
                    old(store)@[k]
                },
            *final(status) == (ExchangeStatus {
                binance_updates: old(status).binance_updates.wrapping_add(
                    self@.dom().len() as u64,
                ),
                ..*old(status)
            }),
    {
        let mut i: usize = 0;
        while i < self.quotes.len()
            invariant
                i <= self.quotes@.len(),
                self.wf(),
                forall|k: Seq<char>| #[trigger]
                    store@.contains_key(k) <==> old(store)@.contains_key(k) || (
                    self.index@.contains_key(k) && self.index@[k] < i),
                forall|k: Seq<char>| #[trigger]
                    store@.contains_key(k) ==> store@[k] == if self.index@.contains_key(k)
                        && self.index@[k] < i {
                        with_binance_book(
                            prices_at(old(store)@, k),
                            self.quotes@[self.index@[k] as int].1,
                            now,
                            epoch_ms,
                        )
                    } else {
                        old(store)@[k]
                    },
            decreases self.quotes@.len() - i,
        {
            let coin = self.quotes[i].0.clone();
            let book = self.quotes[i].1;
            let ghost before = store@;
            assert(self.index@.contains_key(coin@) && self.index@[coin@] == i);
            let prices = store.get_or_default(coin.as_str());
            assert(before.contains_key(coin@) <==> old(store)@.contains_key(coin@));
            assert(prices == prices_at(old(store)@, coin@));
            store.put(coin, note_binance_book(&prices, &book, now, epoch_ms));
            assert forall|k: Seq<char>| #[trigger] store@.contains_key(k) implies store@[k]
                == if self.index@.contains_key(k) && self.index@[k] < i + 1 {
                with_binance_book(
                    prices_at(old(store)@, k),
                    self.quotes@[self.index@[k] as int].1,
                    now,
                    epoch_ms,
                )
            } else {
                old(store)@[k]
            } by {
                if k != coin@ {
                    assert(before.contains_key(k));
                    if self.index@.contains_key(k) {
                        assert(self.quotes@[self.index@[k] as int].0@ == k);
                    }
                }
            }
            assert forall|k: Seq<char>| #[trigger] store@.contains_key(k) <==> old(
                store,
            )@.contains_key(k) || (self.index@.contains_key(k) && self.index@[k] < i + 1) by {
                if k != coin@ && self.index@.contains_key(k) {
                    assert(self.quotes@[self.index@[k] as int].0@ == k);
                }
                assert(before.contains_key(k) <==> old(store)@.contains_key(k) || (
                self.index@.contains_key(k) && self.index@[k] < i));
            }
            i = i + 1;
        }
        let count: usize = self.len();
        status.binance_updates = status.binance_updates.wrapping_add(count as u64);
    }
}

/// What a store knows of a coin, nothing where it does not know it.
pub open spec fn prices_at(m: Map<Seq<char>, CoinPrices>, k: Seq<char>) -> CoinPrices {
    if m.contains_key(k) {
        m[k]
    } else {
        no_prices()
    }
}

/// The price halfway between bid and ask, rounded down.
pub open spec fn mid_price(bid: u64, ask: u64) -> int {
    (bid + ask) / 2
}

/// The price halfway between bid and ask, rounded down.
pub(crate) fn compute_mid(bid: u64, ask: u64) -> (m: u64)
    ensures
        m == mid_price(bid, ask),
{
    ((bid as u128 + ask as u128) / 2) as u64
}

/// Prices with a new book of Binance. The price moves to the middle of the book
/// where both sides are known and not zero.
pub open spec fn with_binance_book(
    p: CoinPrices,
    book: OrderBookEntry,
    now: Instant,
    epoch_ms: i64,
) -> CoinPrices {
    let noted = CoinPrices {
        binance_book: book,
        binance_book_updated: Some(now),
        binance_book_epoch_ms: Some(epoch_ms),
        ..p
    };
    match (book.best_bid, book.best_ask) {
        (Some(b), Some(a)) if b > 0 && a > 0 => CoinPrices {
            binance: Some(mid_price(b, a) as u64),
            binance_updated: Some(now),
            ..noted
        },
        _ => noted,
    }
}

/// Prices with a new book of Binance.
pub fn note_binance_book(p: &CoinPrices, book: &OrderBookEntry, now: Instant, epoch_ms: i64) -> (r:
    CoinPrices)
    ensures
        r == with_binance_book(*p, *book, now, epoch_ms),
{
    let mut r = *p;
    if let (Some(b), Some(a)) = (book.best_bid, book.best_ask) {
        if b > 0 && a > 0 {
            r.binance = Some(compute_mid(b, a));
            r.binance_updated = Some(now);
        }
    }
    r.binance_book = *book;
    r.binance_book_updated = Some(now);
    r.binance_book_epoch_ms = Some(epoch_ms);
    r
}

/// Prices without those of Binance.
pub open spec fn without_binance(p: CoinPrices) -> CoinPrices {
    CoinPrices {
        binance: None,
        binance_updated: None,
        binance_book: crate::price_store::empty_book(),
        binance_book_updated: None,
        ..p
    }
}

/// Clears all prices of Binance, so that stale ones make no spreads.
pub fn clear_binance_prices(store: &mut PriceStore)
    ensures
        forall|k: Seq<char>| #[trigger]
            final(store)@.contains_key(k) <==> old(store)@.contains_key(k),
        forall|k: Seq<char>| #[trigger]
            final(store)@.contains_key(k) ==> final(store)@[k] == without_binance(old(store)@[k]),
{
    let entries = store.entries();
    let mut i: usize = 0;
    while i < entries.len()
        invariant
            i <= entries@.len(),
            crate::price_store::lists_entries(entries@, old(store)@),
            forall|k: Seq<char>| #[trigger]
                store@.contains_key(k) <==> old(store)@.contains_key(k),
            forall|n: int|
                0 <= n < i ==> store@[(#[trigger] entries@[n]).0@] == without_binance(
                    old(store)@[entries@[n].0@],
                ),
        decreases entries@.len() - i,
    {
        let mut p = entries[i].1;
        p.binance = None;
        p.binance_updated = None;
        p.binance_book = OrderBookEntry::default();
        p.binance_book_updated = None;
        store.put(entries[i].0.clone(), p);
        i = i + 1;
    }
    assert forall|k: Seq<char>| #[trigger] store@.contains_key(k) implies store@[k]
        == without_binance(old(store)@[k]) by {
        assert(old(store)@.contains_key(k));
        let n = choose|n: int| 0 <= n < entries@.len() && (#[trigger] entries@[n]).0@ == k;
        assert(entries@[n].0@ == k);
    }
}

} // verus!
