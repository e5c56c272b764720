use live_arb::fixed::pct_change;
use live_arb::price_store::{
    compute_spread_from_fresh, fresh_order_book, fresh_order_book_at, fresh_price_at, fresh_prices,
    fresh_prices_at, get_order_book, get_order_book_updated, get_price, new_funding_store, new_status, new_store, normalize_symbol,
    CoinPrices, Exchange, OrderBookEntry,
};
use std::time::{Duration, Instant};

#[test]
fn test_fresh_order_book() {
    let book = OrderBookEntry {
        best_bid: Some(568_000),
        best_bid_qty: Some(1_000_000_000_000),
        best_ask: Some(568_500),
        best_ask_qty: Some(1_500_000_000_000),
    };

    // Just updated.
    let now = Instant::now();
    assert!(fresh_order_book(&book, Some(now), 2000).is_some());

    // Updated three seconds ago.
    let stale = now - Duration::from_millis(3000);
    assert!(fresh_order_book(&book, Some(stale), 2000).is_none());

    // Without a bid.
    let incomplete = OrderBookEntry {
        best_bid: None,
        best_bid_qty: None,
        best_ask: Some(568_500),
        best_ask_qty: Some(1_500_000_000_000),
    };
    assert!(fresh_order_book(&incomplete, Some(now), 2000).is_none());
}

#[test]
fn test_executable_book_spread() {
    // Bought on Binance at 0.005638 and sold on Bybit at 0.005698.
    let bin_ask = 563_800;
    let byb_bid = 569_800;
    let spread = pct_change(bin_ask, byb_bid);
    assert!(spread > 100_000_000);

    // The bid was 0.005687 and the fill came at 0.005693.
    let real_buy = 569_300;
    let real_sell = 568_700;
    let real_spread = pct_change(real_buy, real_sell);
    assert!(real_spread < 0);
}

#[test]
fn spread_is_relative_to_the_lower_price() {
    assert_eq!(
        compute_spread_from_fresh(Some(10_000_000_000), Some(10_100_000_000)),
        Some(100_000_000)
    );
    assert_eq!(
        compute_spread_from_fresh(Some(10_100_000_000), Some(10_000_000_000)),
        Some(100_000_000)
    );
    assert_eq!(compute_spread_from_fresh(Some(100), Some(200)), Some(10_000_000_000));
    assert_eq!(compute_spread_from_fresh(Some(100), Some(201)), None);
    assert_eq!(compute_spread_from_fresh(Some(0), Some(201)), None);
    assert_eq!(compute_spread_from_fresh(None, Some(201)), None);
}

#[test]
fn prices_grow_stale() {
    assert_eq!(fresh_price_at(Some(7), Some(0)), Some(7));
    assert_eq!(fresh_price_at(Some(7), Some(2000)), Some(7));
    assert_eq!(fresh_price_at(Some(7), Some(2001)), None);
    assert_eq!(fresh_price_at(Some(7), Some(2500)), None);
    assert_eq!(fresh_price_at(Some(7), None), None);
    assert_eq!(fresh_price_at(None, Some(0)), None);
    let mut p = CoinPrices::default();
    p.binance = Some(5);
    p.bybit = Some(6);
    p.binance_updated = Some(Instant::now());
    assert_eq!(fresh_prices(&p), (Some(5), None));
    p.bybit_updated = Some(Instant::now() - Duration::from_secs(4));
    assert_eq!(fresh_prices(&p), (Some(5), None));
    assert_eq!(fresh_prices_at(&p, Some(2001), Some(0)), (None, Some(6)));
    p.binance_book_updated = p.binance_updated;
    assert_eq!(get_order_book_updated(&p, Exchange::Binance), p.binance_updated);
    assert_eq!(get_order_book_updated(&p, Exchange::Bybit), None);
}

#[test]
fn a_book_is_fresh_up_to_its_limit() {
    let book = OrderBookEntry {
        best_bid: Some(1),
        best_bid_qty: None,
        best_ask: Some(2),
        best_ask_qty: None,
    };
    assert!(fresh_order_book_at(&book, Some(2000), 2000).is_some());
    assert!(fresh_order_book_at(&book, Some(2001), 2000).is_none());
    assert!(fresh_order_book_at(&book, None, 2000).is_none());
}

#[test]
fn symbols_are_normalized() {
    assert_eq!(normalize_symbol("btcusdt"), "BTC");
    assert_eq!(normalize_symbol("ETHUSDT"), "ETH");
    assert_eq!(normalize_symbol("USDT"), "USDT");
    assert_eq!(normalize_symbol("straße"), "STRASSE");
}

#[test]
fn a_store_gives_back_what_was_put() {
    let mut store = new_store();
    assert!(store.get("BTC").is_none());
    assert_eq!(store.get_or_default("BTC").binance, None);
    let mut p = CoinPrices::default();
    p.binance = Some(42);
    store.put("BTC".to_string(), p);
    let mut q = CoinPrices::default();
    q.bybit = Some(43);
    store.put("ETH".to_string(), q);
    assert_eq!(store.get("BTC").unwrap().binance, Some(42));
    assert_eq!(get_price(&store.get("ETH").unwrap(), Exchange::Bybit), Some(43));
    assert_eq!(get_price(&store.get("ETH").unwrap(), Exchange::Binance), None);
    let mut coins: Vec<String> = store.entries().into_iter().map(|e| e.0).collect();
    coins.sort();
    assert_eq!(coins, vec!["BTC".to_string(), "ETH".to_string()]);
    p.binance = Some(44);
    store.put("BTC".to_string(), p);
    assert_eq!(store.entries().len(), 2);
    assert_eq!(store.get("BTC").unwrap().binance, Some(44));
}

#[test]
fn books_belong_to_their_exchange() {
    let mut p = CoinPrices::default();
    p.binance_book.best_bid = Some(9);
    assert_eq!(get_order_book(&p, Exchange::Binance).best_bid, Some(9));
    assert_eq!(get_order_book(&p, Exchange::Bybit).best_bid, None);
}

#[test]
fn the_shorter_funding_interval_stays() {
    let mut funding = new_funding_store();
    assert_eq!(funding.get("BTC"), None);
    assert_eq!(funding.hours("BTC"), 8);
    funding.or_insert("BTC".to_string(), 8);
    funding.or_insert("BTC".to_string(), 4);
    assert_eq!(funding.get("BTC"), Some(8));
    funding.lower_to("BTC".to_string(), 4);
    assert_eq!(funding.hours("BTC"), 4);
    funding.lower_to("BTC".to_string(), 8);
    assert_eq!(funding.hours("BTC"), 4);
    funding.lower_to("ETH".to_string(), 1);
    assert_eq!(funding.hours("ETH"), 1);
}

#[test]
fn trading_starts_switched_off() {
    let status = new_status();
    assert!(!status.trading_enabled);
    assert!(status.binance_enabled && status.bybit_enabled);
    assert!(!status.binance_connected && !status.bybit_connected);
    assert_eq!(status.trade_limit, 1);
    assert_eq!(status.session_trades_taken, 0);
}
