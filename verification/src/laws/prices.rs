//! Prices and order books: what the feeds write, what counts as fresh, and what is
//! seen of it.
use super::amounts::{is_percentage, is_quotient, law_percentage, lemma_quotient};
use crate::exchanges::binance_feed::{
    amount_of, coin_in, followed_in, is_perpetual, key_of, ticker_book, with_binance_book,
    BinanceListing, BookTicker,
};
use crate::exchanges::bybit_feed::{
    book_applied, followed_symbols, funding_after, hours_of, is_followed, subscription_text,
    subscriptions_text, ticker_applied, ticker_topics, with_bybit_book, with_ticker, BookUpdate,
    BybitListing, Ticker,
};
use crate::exchanges::session::{
    cleared, connected_as, enabled_on, feed_action, FeedAction, FeedEvent, Frame, LeaveReason,
};
use crate::live_trading::pass::shown;
use crate::price_store::{
    book_if_fresh, book_of, price_if_fresh, price_of, spread_between, without_quote, CoinPrices,
    Exchange, ExchangeStatus, OrderBookEntry, PriceStore,
};
use std::time::Instant;
use vstd::prelude::*;

verus! {

/// Each exchange has its own book and its own price.
pub proof fn law_each_exchange_its_own(p: CoinPrices)
    ensures
        book_of(p, Exchange::Binance) == p.binance_book,
        book_of(p, Exchange::Bybit) == p.bybit_book,
        price_of(p, Exchange::Binance) == p.binance,
        price_of(p, Exchange::Bybit) == p.bybit,
{
}

/// A price counts for two seconds after its update, and as it is; a book as long as it is
/// told to and both its sides are known.
pub proof fn law_freshness(
    price: Option<u64>,
    book: OrderBookEntry,
    age: Option<u128>,
    limit: u128,
)
    ensures
        age is Some && age->Some_0 <= 2000 ==> price_if_fresh(price, age) == price,
        age is None || age->Some_0 > 2000 ==> price_if_fresh(price, age) is None,
        book_if_fresh(book, age, limit) is Some <==> age is Some && age->Some_0 <= limit
            && book.best_bid is Some && book.best_ask is Some,
        book_if_fresh(book, age, limit) is Some ==> book_if_fresh(book, age, limit) == Some(book),
{
}

/// The spread between two prices does not depend on their order. There is one where both
/// are positive and the higher is at most twice the lower; it is the percentage by which
/// the higher lies above the lower.
pub proof fn law_spread(a: Option<u64>, b: Option<u64>, low: u64, high: u64)
    requires
        low <= high,
        a is Some && b is Some ==> (a == Some(low) && b == Some(high)) || (a == Some(high) && b
            == Some(low)),
    ensures
        spread_between(a, b) == spread_between(b, a),
        spread_between(a, b) is Some <==> a is Some && b is Some && low > 0 && high <= 2 * low,
        spread_between(a, b) is Some ==> {
            &&& is_percentage(spread_between(a, b)->Some_0, low as int, high as int)
            &&& 0 <= spread_between(a, b)->Some_0 <= 10_000_000_000
        },
{
    if low > 0 {
        let d = (high - low) * 10_000_000_000;
        law_percentage(low as int, high as int, high as int);
        let q = crate::fixed::pct_change_spec(low as int, high as int);
        crate::fixed::lemma_quotient_fits(d, low as int);
        assert(high <= 2 * low ==> q <= 10_000_000_000) by (nonlinear_arith)
            requires
                low > 0,
                q * low <= (high - low) * 10_000_000_000,
        ;
    }
}

/// A ticker of Binance states the book: bid and ask, each with its quantity.
pub proof fn law_binance_ticker(t: BookTicker)
    ensures
        ticker_book(t).best_bid == amount_of(t.bid@),
        ticker_book(t).best_bid_qty == amount_of(t.bid_qty@),
        ticker_book(t).best_ask == amount_of(t.ask@),
        ticker_book(t).best_ask_qty == amount_of(t.ask_qty@),
{
}

/// A new book of Binance replaces the old one and moves the price to its middle, where
/// both sides are positive; nothing of Bybit changes.
pub proof fn law_binance_book(p: CoinPrices, book: OrderBookEntry, now: Instant, epoch_ms: i64)
    ensures
        ({
            let q = with_binance_book(p, book, now, epoch_ms);
            let both = book.best_bid is Some && book.best_bid->Some_0 > 0 && book.best_ask is Some
                && book.best_ask->Some_0 > 0;
            &&& q.binance_book == book
            &&& q.binance_book_updated == Some(now)
            &&& q.binance_book_epoch_ms == Some(epoch_ms)
            &&& both ==> {
                &&& q.binance is Some
                &&& is_quotient(
                    q.binance->Some_0 as int,
                    book.best_bid->Some_0 + book.best_ask->Some_0,
                    2,
                )
                &&& q.binance_updated == Some(now)
            }
            &&& !both ==> q.binance == p.binance && q.binance_updated == p.binance_updated
            &&& q.bybit == p.bybit
            &&& q.bybit_updated == p.bybit_updated
            &&& q.bybit_book == p.bybit_book
            &&& q.bybit_book_updated == p.bybit_book_updated
            &&& q.bybit_book_epoch_ms == p.bybit_book_epoch_ms
        }),
{
    if book.best_bid is Some && book.best_ask is Some {
        lemma_quotient(book.best_bid->Some_0 + book.best_ask->Some_0, 2);
    }
}

/// A ticker of Bybit changes what it states: a price where it is positive, a quantity
/// where there is one. The last price moves to the middle of the book where both sides
/// are positive, else to the stated one where it is positive, else it stays. Nothing of
/// Binance changes.
pub proof fn law_bybit_ticker(p: CoinPrices, t: Ticker, now: Instant, epoch_ms: i64)
    ensures
        ({
            let q = with_ticker(p, t, now, epoch_ms);
            let bid = if t.bid is Some {
                amount_of(t.bid->Some_0@)
            } else {
                None
            };
            let ask = if t.ask is Some {
                amount_of(t.ask->Some_0@)
            } else {
                None
            };
            let bid_qty = if t.bid_size is Some {
                amount_of(t.bid_size->Some_0@)
            } else {
                None
            };
            let ask_qty = if t.ask_size is Some {
                amount_of(t.ask_size->Some_0@)
            } else {
                None
            };
            let last = if t.last_price is Some {
                amount_of(t.last_price->Some_0@)
            } else {
                None
            };
            let b = q.bybit_book;
            let both = b.best_bid is Some && b.best_bid->Some_0 > 0 && b.best_ask is Some
                && b.best_ask->Some_0 > 0;
            &&& b.best_bid == (if bid is Some && bid->Some_0 > 0 {
                bid
            } else {
                p.bybit_book.best_bid
            })
            &&& b.best_ask == (if ask is Some && ask->Some_0 > 0 {
                ask
            } else {
                p.bybit_book.best_ask
            })
            &&& b.best_bid_qty == (if bid_qty is Some {
                bid_qty
            } else {
                p.bybit_book.best_bid_qty
            })
            &&& b.best_ask_qty == (if ask_qty is Some {
                ask_qty
            } else {
                p.bybit_book.best_ask_qty
            })
            &&& q.bybit_book_updated == Some(now)
            &&& q.bybit_book_epoch_ms == Some(epoch_ms)
            &&& both ==> q.bybit is Some && is_quotient(
                q.bybit->Some_0 as int,
                b.best_bid->Some_0 + b.best_ask->Some_0,
                2,
            ) && q.bybit_updated == Some(now)
            &&& !both && last is Some && last->Some_0 > 0 ==> q.bybit == last && q.bybit_updated
                == Some(now)
            &&& !both && (last is None || last->Some_0 == 0) ==> q.bybit == p.bybit
                && q.bybit_updated == p.bybit_updated
            &&& q.binance == p.binance
            &&& q.binance_updated == p.binance_updated
            &&& q.binance_book == p.binance_book
            &&& q.binance_book_updated == p.binance_book_updated
            &&& q.binance_book_epoch_ms == p.binance_book_epoch_ms
        }),
{
    let b = with_ticker(p, t, now, epoch_ms).bybit_book;
    if b.best_bid is Some && b.best_ask is Some {
        lemma_quotient(b.best_bid->Some_0 + b.best_ask->Some_0, 2);
    }
}

/// An order book update of Bybit replaces the sides that it states and leaves the other
/// side, the last price and everything of Binance.
pub proof fn law_bybit_book(p: CoinPrices, u: BookUpdate, now: Instant, epoch_ms: i64)
    ensures
        ({
            let q = with_bybit_book(p, u, now, epoch_ms);
            let b = q.bybit_book;
            &&& u.bid is Some ==> b.best_bid == amount_of(u.bid->Some_0.0@) && b.best_bid_qty
                == amount_of(u.bid->Some_0.1@)
            &&& u.bid is None ==> b.best_bid == p.bybit_book.best_bid && b.best_bid_qty
                == p.bybit_book.best_bid_qty
            &&& u.ask is Some ==> b.best_ask == amount_of(u.ask->Some_0.0@) && b.best_ask_qty
                == amount_of(u.ask->Some_0.1@)
            &&& u.ask is None ==> b.best_ask == p.bybit_book.best_ask && b.best_ask_qty
                == p.bybit_book.best_ask_qty
            &&& q.bybit_book_updated == Some(now)
            &&& q.bybit_book_epoch_ms == Some(epoch_ms)
            &&& q.bybit == p.bybit
            &&& q.bybit_updated == p.bybit_updated
            &&& q.binance == p.binance
            &&& q.binance_updated == p.binance_updated
            &&& q.binance_book == p.binance_book
            &&& q.binance_book_updated == p.binance_book_updated
            &&& q.binance_book_epoch_ms == p.binance_book_epoch_ms
        }),
{
}

/// An exchange that is left keeps no price, no book and no time of update, of any coin;
/// the other keeps all it had, and no coin is forgotten.
pub proof fn law_leaving_clears_one_exchange(
    before: PriceStore,
    after: PriceStore,
    e: Exchange,
    coin: Seq<char>,
)
    requires
        cleared(before, after, e),
    ensures
        before@.contains_key(coin) <==> after@.contains_key(coin),
        before@.contains_key(coin) && e == Exchange::Binance ==> {
            let p = before@[coin];
            let q = after@[coin];
            &&& q.binance is None && q.binance_updated is None && q.binance_book_updated is None
            &&& q.binance_book.best_bid is None && q.binance_book.best_ask is None
            &&& q.binance_book.best_bid_qty is None && q.binance_book.best_ask_qty is None
            &&& q.bybit == p.bybit && q.bybit_updated == p.bybit_updated
            &&& q.bybit_book == p.bybit_book && q.bybit_book_updated == p.bybit_book_updated
        },
        before@.contains_key(coin) && e == Exchange::Bybit ==> {
            let p = before@[coin];
            let q = after@[coin];
            &&& q.bybit is None && q.bybit_updated is None && q.bybit_book_updated is None
            &&& q.bybit_book.best_bid is None && q.bybit_book.best_ask is None
            &&& q.bybit_book.best_bid_qty is None && q.bybit_book.best_ask_qty is None
            &&& q.binance == p.binance && q.binance_updated == p.binance_updated
            &&& q.binance_book == p.binance_book && q.binance_book_updated == p.binance_book_updated
        },
{
    assert(before@.contains_key(coin) <==> after@.contains_key(coin));
}

/// The status of an exchange is its own: connecting or leaving one changes nothing of the
/// other, nor anything else.
pub proof fn law_connection_is_its_own(s: ExchangeStatus, e: Exchange, connected: bool)
    ensures
        ({
            let t = connected_as(s, e, connected);
            &&& e == Exchange::Binance ==> t.binance_connected == connected && t.bybit_connected
                == s.bybit_connected
            &&& e == Exchange::Bybit ==> t.bybit_connected == connected && t.binance_connected
                == s.binance_connected
            &&& t.binance_enabled == s.binance_enabled && t.bybit_enabled == s.bybit_enabled
            &&& t.trading_enabled == s.trading_enabled
            &&& enabled_on(s, Exchange::Binance) == s.binance_enabled
            &&& enabled_on(s, Exchange::Bybit) == s.bybit_enabled
        }),
{
}

/// When a session is left: the exchange was switched off, nothing was heard for more than
/// half a minute, something could not be sent, or the connection came to its end. A text
/// is read, a ping answered, and a ping sent when it is due.
pub proof fn law_session(enabled: bool, event: FeedEvent)
    ensures
        ({
            let a = feed_action(enabled, event);
            &&& a is Leave <==> {
                ||| event == FeedEvent::EnableCheck && !enabled
                ||| event is PingDue && event->silent_ms > 30_000
                ||| event == FeedEvent::SendFailed
                ||| event == FeedEvent::Arrived(Frame::Close)
                ||| event == FeedEvent::Arrived(Frame::Failed)
                ||| event == FeedEvent::Arrived(Frame::Ended)
            }
            &&& a == FeedAction::Read <==> event == FeedEvent::Arrived(Frame::Text)
            &&& a == FeedAction::SendPong <==> event == FeedEvent::Arrived(Frame::Ping)
            &&& a == FeedAction::SendPing <==> event is PingDue && event->silent_ms <= 30_000
            &&& a == FeedAction::Leave(LeaveReason::Disabled) <==> event == FeedEvent::EnableCheck
                && !enabled
            &&& a == FeedAction::Leave(LeaveReason::Silent) <==> event is PingDue
                && event->silent_ms > 30_000
        }),
{
}

/// What is seen of a coin: a price of an exchange where that exchange is enabled and the
/// price at most two seconds old, and the prices and books as they are.
pub proof fn law_look(
    prices: CoinPrices,
    ages: (Option<u128>, Option<u128>),
    status: ExchangeStatus,
    near_funding: bool,
)
    ensures
        ({
            let l = shown(prices, ages, status, near_funding);
            &&& l.prices == prices
            &&& l.near_funding == near_funding
            &&& l.binance == (if status.binance_enabled && ages.0 is Some && ages.0->Some_0 <= 2000 {
                prices.binance
            } else {
                None
            })
            &&& l.bybit == (if status.bybit_enabled && ages.1 is Some && ages.1->Some_0 <= 2000 {
                prices.bybit
            } else {
                None
            })
        }),
{
}

/// The key of a symbol is the symbol without its quote currency: what is left with the
/// quote currency behind it is the symbol again, and a coin of its own is left as it is.
pub proof fn law_symbol_key(s: Seq<char>, coin: Seq<char>)
    ensures
        without_quote(s) == s || without_quote(s) + "USDT"@ == s,
        coin.len() > 0 ==> without_quote(coin + "USDT"@) == coin,
        without_quote("USDT"@) == "USDT"@,
{
    reveal_strlit("USDT");
    let quote = "USDT"@;
    if quote.is_suffix_of(s) && s.len() > quote.len() {
        assert(s.take(s.len() - 4) + quote =~= s);
    }
    if coin.len() > 0 {
        let full = coin + quote;
        assert(quote.is_suffix_of(full)) by {
            assert(full.subrange(full.len() - 4, full.len() as int) =~= quote);
        }
        assert(full.take(full.len() - 4) =~= coin);
    }
}

/// A funding interval is stated in minutes: whole hours, at least one, eight where it is
/// not stated.
pub proof fn law_funding_hours(l: BybitListing)
    ensures
        l.funding_interval is None ==> hours_of(l) == 8,
        l.funding_interval is Some && l.funding_interval->Some_0 < 60 ==> hours_of(l) == 1,
        l.funding_interval is Some && 60 <= l.funding_interval->Some_0 <= 0xffff_ffff
            ==> is_quotient(hours_of(l), l.funding_interval->Some_0 as int, 60),
{
    if l.funding_interval is Some {
        lemma_quotient(l.funding_interval->Some_0 as int, 60);
    }
}

/// The shortest interval wins: after listings are taken over, the interval of a coin is
/// not longer than the one known before, nor than that of any followed listing of the
/// coin, and is one of these; other coins keep theirs.
pub proof fn law_shortest_interval(
    m: Map<Seq<char>, u32>,
    list: Seq<BybitListing>,
    followed: Set<Seq<char>>,
    n: int,
    coin: Seq<char>,
)
    requires
        0 <= n <= list.len(),
    ensures
        ({
            let f = funding_after(m, list, followed, n);
            &&& m.contains_key(coin) ==> f.contains_key(coin) && f[coin] <= m[coin]
            &&& forall|i: int|
                0 <= i < n && followed.contains((#[trigger] list[i]).symbol@) && key_of(
                    list[i].symbol@,
                ) == coin ==> f.contains_key(coin) && f[coin] <= hours_of(list[i])
            &&& f.contains_key(coin) ==> {
                ||| m.contains_key(coin) && f[coin] == m[coin]
                ||| exists|i: int|
                    0 <= i < n && followed.contains((#[trigger] list[i]).symbol@) && key_of(
                        list[i].symbol@,
                    ) == coin && f[coin] == hours_of(list[i])
            }
        }),
    decreases n,
{
    if n > 0 {
        law_shortest_interval(m, list, followed, n - 1, coin);
        let before = funding_after(m, list, followed, n - 1);
        let f = funding_after(m, list, followed, n);
        let last = list[n - 1];
        assert(1 <= hours_of(last) <= u32::MAX);
        if f.contains_key(coin) && before.contains_key(coin) && f[coin] == before[coin] {
            if !(m.contains_key(coin) && f[coin] == m[coin]) {
                let i = choose|i: int|
                    0 <= i < n - 1 && followed.contains((#[trigger] list[i]).symbol@) && key_of(
                        list[i].symbol@,
                    ) == coin && before[coin] == hours_of(list[i]);
                assert(list[i].symbol@ == list[i].symbol@);
            }
        } else if f.contains_key(coin) {
            assert(followed.contains(list[n - 1].symbol@) && key_of(list[n - 1].symbol@) == coin);
        }
    }
}

/// The symbols that are followed are those of the listings to follow, in their order.
pub proof fn law_followed(list: Seq<BybitListing>, n: int, symbol: Seq<char>)
    requires
        0 <= n <= list.len(),
    ensures
        followed_symbols(list, n).contains(symbol) <==> exists|i: int|
            0 <= i < n && is_followed(#[trigger] list[i]) && list[i].symbol@ == symbol,
        followed_symbols(list, n).len() <= n,
    decreases n,
{
    if n > 0 {
        law_followed(list, n - 1, symbol);
        let before = followed_symbols(list, n - 1);
        let all = followed_symbols(list, n);
        if before.contains(symbol) {
            let j = choose|j: int| 0 <= j < before.len() && before[j] == symbol;
            assert(all[j] == symbol);
        }
        if is_followed(list[n - 1]) {
            assert(all[all.len() - 1] == list[n - 1].symbol@);
            if all.contains(symbol) && !before.contains(symbol) {
                let j = choose|j: int| 0 <= j < all.len() && all[j] == symbol;
                if j < before.len() {
                    assert(before[j] == symbol);
                }
            }
        }
    }
}

/// Which listings are followed: those of linear perpetuals that trade and are quoted in
/// USDT, and no stocks, commodities or funds.
pub proof fn law_listing(l: BybitListing)
    ensures
        is_followed(l) ==> l.status@ == "Trading"@,
        is_followed(l) ==> l.contract_type is Some && (l.contract_type->Some_0@
            == "LinearPerpetual"@ || l.contract_type->Some_0@ == "PERPETUAL"@),
        is_followed(l) ==> "USDT"@.is_suffix_of(l.symbol@),
        l.symbol_type is Some && (l.symbol_type->Some_0@ == "stock"@ || l.symbol_type->Some_0@
            == "commodity"@ || l.symbol_type->Some_0@ == "ETF"@) ==> !is_followed(l),
        l.status@ == "Trading"@ && l.contract_type is Some && l.contract_type->Some_0@
            == "LinearPerpetual"@ && l.symbol_type is None && "USDT"@.is_suffix_of(l.symbol@)
            ==> is_followed(l),
{
}

/// Symbols are subscribed to in portions of twenty, in their order, none twice and none
/// left out: portion `i` holds those from twenty times `i` on.
pub proof fn law_subscriptions(symbols: Seq<Seq<char>>, i: int)
    ensures
        is_quotient(subscriptions_text(symbols).len() as int, symbols.len() as int + 19, 20),
        0 <= i < subscriptions_text(symbols).len() ==> {
            let end = if 20 * i + 20 <= symbols.len() {
                20 * i + 20
            } else {
                symbols.len() as int
            };
            &&& 20 * i < end
            &&& subscriptions_text(symbols)[i] == subscription_text(
                ticker_topics(symbols.subrange(20 * i, end)),
            )
        },
    decreases symbols.len(),
{
    let n = symbols.len();
    if n > 20 {
        let rest = symbols.skip(20);
        law_subscriptions(rest, i - 1);
        let end = if 20 * i + 20 <= n {
            20 * i + 20
        } else {
            n as int
        };
        if i == 0 {
            assert(symbols.take(20) =~= symbols.subrange(0, 20));
        } else if 0 < i < subscriptions_text(symbols).len() {
            assert(rest.subrange(20 * (i - 1), end - 20) =~= symbols.subrange(20 * i, end));
        }
    } else if n > 0 {
        assert(symbols.subrange(0, n as int) =~= symbols);
    }
}

/// A ticker of Bybit changes the prices of its coin only, and counts where it left a
/// price above zero.
pub proof fn law_ticker_reaches_its_coin(
    before: Map<Seq<char>, CoinPrices>,
    after: Map<Seq<char>, CoinPrices>,
    t: Ticker,
    now: Instant,
    epoch_ms: i64,
    gave_price: bool,
    other: Seq<char>,
)
    requires
        ticker_applied(before, after, t, now, epoch_ms, gave_price),
        other != key_of(t.symbol@),
    ensures
        after.contains_key(key_of(t.symbol@)),
        after.contains_key(other) <==> before.contains_key(other),
        before.contains_key(other) ==> after[other] == before[other],
        before.contains_key(key_of(t.symbol@)) ==> {
            let p = before[key_of(t.symbol@)];
            let q = after[key_of(t.symbol@)];
            &&& q.binance == p.binance
            &&& q.binance_book == p.binance_book
            &&& !gave_price ==> q.bybit == p.bybit && q.bybit_updated == p.bybit_updated
            &&& gave_price ==> q.bybit is Some && q.bybit->Some_0 > 0 && q.bybit_updated == Some(
                now,
            )
        },
        !before.contains_key(key_of(t.symbol@)) ==> after[key_of(t.symbol@)].binance is None
            && after[key_of(t.symbol@)].binance_book.best_bid is None
            && after[key_of(t.symbol@)].binance_book.best_ask is None,
{
}

/// An order book of Bybit is taken for a coin that is known, and for no other; it counts
/// where it is taken, and no switch changes.
pub proof fn law_book_reaches_its_coin(
    before: Map<Seq<char>, CoinPrices>,
    after: Map<Seq<char>, CoinPrices>,
    status: ExchangeStatus,
    status_after: ExchangeStatus,
    u: BookUpdate,
    now: Instant,
    epoch_ms: i64,
    other: Seq<char>,
)
    requires
        book_applied(before, after, status, status_after, u, now, epoch_ms),
        other != key_of(u.symbol@),
        status.bybit_updates < u64::MAX,
    ensures
        after.dom() == before.dom(),
        before.contains_key(other) ==> after[other] == before[other],
        before.contains_key(key_of(u.symbol@)) ==> {
            &&& status_after.bybit_updates == status.bybit_updates + 1
            &&& after[key_of(u.symbol@)].bybit_book_updated == Some(now)
            &&& after[key_of(u.symbol@)].binance == before[key_of(u.symbol@)].binance
        },
        !before.contains_key(key_of(u.symbol@)) ==> status_after == status,
        status_after.binance_updates == status.binance_updates,
        status_after.trading_enabled == status.trading_enabled,
        status_after.binance_enabled == status.binance_enabled,
        status_after.bybit_enabled == status.bybit_enabled,
{
    assert(after.dom() =~= before.dom());
}

/// Of the listings of Binance those are followed that trade, are perpetual and take their
/// margin in USDT. The coins of these get a funding interval.
pub proof fn law_followed_on_binance(list: Seq<BinanceListing>, l: BinanceListing)
    ensures
        is_perpetual(l) <==> {
            &&& l.status@ == "TRADING"@
            &&& l.contract_type is Some && l.contract_type->Some_0@ == "PERPETUAL"@
            &&& l.margin_asset is Some && l.margin_asset->Some_0@ == "USDT"@
        },
        is_perpetual(l) ==> followed_in(list.push(l), l.symbol@, (list.len() + 1) as int)
            && coin_in(list.push(l), key_of(l.symbol@), (list.len() + 1) as int),
        forall|s: Seq<char>|
            #[trigger] followed_in(list.push(l), s, (list.len() + 1) as int) && !followed_in(
                list,
                s,
                list.len() as int,
            ) ==> s == l.symbol@ && is_perpetual(l),
        !followed_in(list, l.symbol@, 0),
{
    let more = list.push(l);
    let n = list.len() as int;
    assert(more[n] == l);
    assert forall|s: Seq<char>|
        #[trigger] followed_in(more, s, n + 1) && !followed_in(list, s, n) implies s == l.symbol@
        && is_perpetual(l) by {
        let i = choose|i: int|
            0 <= i < n + 1 && (#[trigger] more[i]).symbol@ == s && is_perpetual(more[i]);
        if i < n {
            assert(list[i] == more[i]);
        }
    }
}

} // verus!
