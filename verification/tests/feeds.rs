use live_arb::exchanges::binance_feed::{
    clear_binance_prices, note_binance_book, perpetual_symbols, BinanceListing, BookTicker,
    QuoteBatch,
};
use live_arb::exchanges::bybit_feed::{
    apply_book, apply_ticker, clear_bybit_prices, note_funding, select_symbols, subscription,
    subscriptions, symbol_set, topic_of, BookUpdate, BybitListing, Ticker, Topic,
};
use live_arb::price_store::{
    compute_spread_from_fresh, new_funding_store, new_status, new_store, CoinPrices,
    OrderBookEntry,
};
use std::time::Instant;

fn binance_listing(symbol: &str, status: &str, kind: Option<&str>, margin: &str) -> BinanceListing {
    BinanceListing {
        symbol: symbol.to_string(),
        status: status.to_string(),
        contract_type: kind.map(|k| k.to_string()),
        margin_asset: Some(margin.to_string()),
    }
}

fn tick(symbol: &str, bid: &str, ask: &str) -> BookTicker {
    BookTicker {
        symbol: symbol.to_string(),
        bid: bid.to_string(),
        bid_qty: "3".to_string(),
        ask: ask.to_string(),
        ask_qty: "4".to_string(),
    }
}

#[test]
fn only_traded_usdt_perpetuals_are_followed() {
    let mut funding = new_funding_store();
    funding.or_insert("ETH".to_string(), 4);
    let list = vec![
        binance_listing("BTCUSDT", "TRADING", Some("PERPETUAL"), "USDT"),
        binance_listing("ETHUSDT", "TRADING", Some("PERPETUAL"), "USDT"),
        binance_listing("OLDUSDT", "BREAK", Some("PERPETUAL"), "USDT"),
        binance_listing("DATUSDT", "TRADING", Some("CURRENT_QUARTER"), "USDT"),
        binance_listing("COINUSD", "TRADING", Some("PERPETUAL"), "BTC"),
        binance_listing("NONEUSDT", "TRADING", None, "USDT"),
    ];
    let set = perpetual_symbols(&list, &mut funding);
    assert!(set.contains("BTCUSDT") && set.contains("ETHUSDT"));
    for other in ["OLDUSDT", "DATUSDT", "COINUSD", "NONEUSDT"] {
        assert!(!set.contains(other));
    }
    assert_eq!(funding.get("BTC"), Some(8));
    assert_eq!(funding.get("ETH"), Some(4));
    assert_eq!(funding.get("OLD"), None);
}

#[test]
fn a_batch_keeps_the_latest_quote_of_a_coin() {
    let mut funding = new_funding_store();
    let list = vec![binance_listing("BTCUSDT", "TRADING", Some("PERPETUAL"), "USDT")];
    let followed = perpetual_symbols(&list, &mut funding);
    let mut batch = QuoteBatch::new();
    batch.parse_book_ticker(&tick("BTCUSDT", "1", "2"), &followed);
    batch.parse_book_ticker(&tick("XRPUSDT", "1", "2"), &followed);
    batch.parse_book_ticker(&tick("BTCUSDT", "10", "12"), &followed);
    assert_eq!(batch.len(), 1);

    let mut store = new_store();
    let mut status = new_status();
    batch.apply(&mut store, &mut status, Instant::now(), 77);
    let p = store.get("BTC").unwrap();
    assert_eq!(p.binance, Some(1_100_000_000));
    assert_eq!(p.binance_book.best_bid, Some(1_000_000_000));
    assert_eq!(p.binance_book.best_ask, Some(1_200_000_000));
    assert_eq!(p.binance_book.best_bid_qty, Some(300_000_000));
    assert_eq!(p.binance_book.best_ask_qty, Some(400_000_000));
    assert_eq!(p.binance_book_epoch_ms, Some(77));
    assert!(p.binance_updated.is_some());
    assert_eq!(status.binance_updates, 1);
    assert!(store.get("XRP").is_none());
}

#[test]
fn an_unreadable_quote_keeps_the_price() {
    let mut p = CoinPrices::default();
    p.binance = Some(5);
    let book = OrderBookEntry {
        best_bid: None,
        best_bid_qty: Some(1),
        best_ask: Some(2),
        best_ask_qty: None,
    };
    let q = note_binance_book(&p, &book, Instant::now(), 9);
    assert_eq!(q.binance, Some(5));
    assert!(q.binance_updated.is_none());
    assert_eq!(q.binance_book.best_bid, None);
    assert_eq!(q.binance_book.best_ask, Some(2));
    assert!(q.binance_book_updated.is_some());
}

fn bybit_listing(symbol: &str, kind: &str, symbol_type: Option<&str>, minutes: Option<u64>) -> BybitListing {
    BybitListing {
        symbol: symbol.to_string(),
        status: "Trading".to_string(),
        contract_type: Some(kind.to_string()),
        symbol_type: symbol_type.map(|k| k.to_string()),
        funding_interval: minutes,
    }
}

#[test]
fn bybit_symbols_are_crypto_perpetuals() {
    let mut closed = bybit_listing("OLDUSDT", "LinearPerpetual", None, None);
    closed.status = "Closed".to_string();
    let list = vec![
        bybit_listing("BTCUSDT", "LinearPerpetual", None, Some(480)),
        bybit_listing("ONUSDT", "LinearPerpetual", Some("stock"), Some(480)),
        bybit_listing("OILUSDT", "LinearPerpetual", Some("commodity"), Some(480)),
        bybit_listing("SPYUSDT", "LinearPerpetual", Some("ETF"), Some(480)),
        bybit_listing("ETHUSDT", "PERPETUAL", Some("innovation"), Some(60)),
        bybit_listing("DATUSDT", "LinearFutures", None, None),
        bybit_listing("BTCPERP", "LinearPerpetual", None, None),
        closed,
        bybit_listing("XRPUSDT", "LinearPerpetual", None, None),
        bybit_listing("FASTUSDT", "LinearPerpetual", None, Some(30)),
    ];
    let symbols = select_symbols(&list);
    assert_eq!(symbols, vec!["BTCUSDT", "ETHUSDT", "XRPUSDT", "FASTUSDT"]);

    let mut funding = new_funding_store();
    funding.or_insert("BTC".to_string(), 4);
    funding.or_insert("ETH".to_string(), 8);
    note_funding(&list, &symbol_set(&symbols), &mut funding);
    assert_eq!(funding.hours("BTC"), 4);
    assert_eq!(funding.hours("ETH"), 1);
    assert_eq!(funding.get("XRP"), Some(8));
    assert_eq!(funding.get("FAST"), Some(1));
    assert_eq!(funding.get("ON"), None);
}

#[test]
fn subscriptions_come_in_groups() {
    assert_eq!(
        subscription(&vec!["tickers.A".to_string(), "tickers.B".to_string()]),
        "{\"args\":[\"tickers.A\",\"tickers.B\"],\"op\":\"subscribe\"}"
    );
    let symbols: Vec<String> = (0..41).map(|i| format!("S{}", i)).collect();
    let frames = subscriptions(&symbols);
    assert_eq!(frames.len(), 3);
    assert!(frames[0].contains("\"tickers.S0\"") && frames[0].contains("\"tickers.S19\""));
    assert_eq!(frames[2], "{\"args\":[\"tickers.S40\"],\"op\":\"subscribe\"}");
    assert!(subscriptions(&vec![]).is_empty());
}

#[test]
fn topics_are_told_by_their_beginning() {
    assert!(matches!(topic_of("orderbook.1.BTCUSDT"), Topic::OrderBook));
    assert!(matches!(topic_of("tickers.BTCUSDT"), Topic::Ticker));
    assert!(matches!(topic_of("orderbook.50.BTCUSDT"), Topic::Other));
}

fn ticker(bid: Option<&str>, ask: Option<&str>, last: Option<&str>) -> Ticker {
    Ticker {
        symbol: "BTCUSDT".to_string(),
        last_price: last.map(|s| s.to_string()),
        bid: bid.map(|s| s.to_string()),
        bid_size: Some("2".to_string()),
        ask: ask.map(|s| s.to_string()),
        ask_size: None,
    }
}

#[test]
fn a_ticker_changes_what_it_tells() {
    let mut store = new_store();
    let mut status = new_status();
    let now = Instant::now();
    assert!(apply_ticker(&mut store, &mut status, &ticker(Some("10"), None, Some("11")), now, 5));
    let p = store.get("BTC").unwrap();
    assert_eq!(p.bybit, Some(1_100_000_000));
    assert_eq!(p.bybit_book.best_bid, Some(1_000_000_000));
    assert_eq!(p.bybit_book.best_bid_qty, Some(200_000_000));
    assert_eq!(p.bybit_book.best_ask, None);

    // A delta leaves the bid.
    assert!(apply_ticker(&mut store, &mut status, &ticker(None, Some("14"), None), now, 6));
    let p = store.get("BTC").unwrap();
    assert_eq!(p.bybit_book.best_bid, Some(1_000_000_000));
    assert_eq!(p.bybit, Some(1_200_000_000));
    assert_eq!(p.bybit_book_epoch_ms, Some(6));
    assert_eq!(status.bybit_updates, 2);

    // Zero is no quote.
    let mut other = new_store();
    assert!(!apply_ticker(&mut other, &mut status, &ticker(Some("0"), None, Some("x")), now, 7));
    assert_eq!(other.get("BTC").unwrap().bybit, None);
    assert_eq!(status.bybit_updates, 2);
}

#[test]
fn a_book_update_needs_a_known_coin() {
    let mut store = new_store();
    let mut status = new_status();
    let update = BookUpdate {
        symbol: "BTCUSDT".to_string(),
        bid: Some(("10".to_string(), "1".to_string())),
        ask: None,
    };
    apply_book(&mut store, &mut status, &update, Instant::now(), 5);
    assert!(store.get("BTC").is_none());
    assert_eq!(status.bybit_updates, 0);

    let mut p = CoinPrices::default();
    p.bybit_book.best_ask = Some(7);
    store.put("BTC".to_string(), p);
    apply_book(&mut store, &mut status, &update, Instant::now(), 5);
    let p = store.get("BTC").unwrap();
    assert_eq!(p.bybit_book.best_bid, Some(1_000_000_000));
    assert_eq!(p.bybit_book.best_bid_qty, Some(100_000_000));
    assert_eq!(p.bybit_book.best_ask, Some(7));
    assert_eq!(p.bybit, None);
    assert_eq!(status.bybit_updates, 1);
}

#[test]
fn clearing_leaves_no_spread() {
    let mut store = new_store();
    let mut p = CoinPrices::default();
    p.binance = Some(100);
    p.bybit = Some(101);
    p.binance_book.best_bid = Some(9);
    p.binance_updated = Some(Instant::now());
    store.put("BTC".to_string(), p);
    store.put("ETH".to_string(), p);
    clear_binance_prices(&mut store);
    for coin in ["BTC", "ETH"] {
        let q = store.get(coin).unwrap();
        assert_eq!(q.binance, None);
        assert_eq!(q.binance_book.best_bid, None);
        assert!(q.binance_updated.is_none());
        assert_eq!(q.bybit, Some(101));
        assert_eq!(compute_spread_from_fresh(q.binance, q.bybit), None);
    }
    clear_bybit_prices(&mut store);
    assert_eq!(store.get("ETH").unwrap().bybit, None);
}
