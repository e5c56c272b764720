use live_arb::latency::TradeLatency;
use live_arb::price_store::Exchange;
use live_arb::summary::{are_listable, trade_summary};
use live_arb::trade_journal::{compute_summary, default_trade_type, TradeRecord, TradeType};

fn trade(id: u64, kind: TradeType, net: i128, spread: Option<i128>) -> TradeRecord {
    TradeRecord {
        id,
        timestamp_ns: 1_700_000_000_000_000_000,
        coin: "LONGCOINNAME".to_string(),
        exchange_buy: Exchange::Binance,
        exchange_sell: Exchange::Bybit,
        trade_type: kind,
        buy_order_id: "b".to_string(),
        sell_order_id: "s".to_string(),
        buy_fill_price: 1,
        sell_fill_price: 2,
        buy_filled_qty: 3,
        sell_filled_qty: 4,
        buy_quote_value: 5,
        sell_quote_value: 6,
        buy_commission: 1_000_000,
        buy_commission_asset: "USDT".to_string(),
        sell_commission: 2_000_000,
        sell_commission_asset: "USDT".to_string(),
        total_fee: 3_000_000,
        spread_before: 200_000_000,
        spread_after: 0,
        pnl_gross: net + 3_000_000,
        pnl_net: net,
        exchange_realized_pnl: 0,
        buy_book_bid: 0,
        buy_book_ask: 0,
        buy_book_bid_qty: None,
        buy_book_ask_qty: None,
        sell_book_bid: 0,
        sell_book_ask: 0,
        sell_book_bid_qty: None,
        sell_book_ask_qty: None,
        close_buy_price: None,
        close_sell_price: None,
        close_buy_commission: None,
        close_sell_commission: None,
        close_buy_order_id: None,
        close_sell_order_id: None,
        total_open_fees: None,
        total_close_fees: None,
        hold_duration_secs: None,
        entry_spread: spread,
        exit_spread: None,
        funding_interval_hours: None,
        latency: None,
        real_account_entry_buy: None,
        real_account_entry_sell: None,
        real_unrealized_pnl: None,
        buy_order_status: None,
        sell_order_status: None,
    }
}

#[test]
fn trades_are_summarised() {
    let trades = vec![
        trade(1, TradeType::Open, -3_000_000, None),
        trade(2, TradeType::Close, 50_000_000, Some(100_000_000)),
        trade(3, TradeType::Close, -20_000_000, None),
        trade(4, TradeType::Close, 0, None),
        trade(5, TradeType::Open, -3_000_000, None),
    ];
    assert!(trades.iter().all(|t| t.is_in_range()));
    let s = compute_summary(&trades);
    assert_eq!(s.total_trades, 5);
    assert_eq!((s.winning_trades, s.losing_trades, s.closed_trades), (1, 2, 3));
    assert_eq!(s.open_trades, 1);
    assert_eq!(s.total_pnl_net, 30_000_000);
    assert_eq!(s.total_pnl_gross, 39_000_000);
    assert_eq!(s.total_fees, 15_000_000);
    assert_eq!((s.best_trade_pnl, s.worst_trade_pnl), (50_000_000, -20_000_000));
    assert_eq!(s.win_rate, 3_333_333_333);
    assert_eq!(s.avg_spread_captured, 166_666_666);
    assert_eq!((s.binance.trades_as_buy, s.binance.trades_as_sell), (5, 0));
    assert_eq!((s.bybit.trades_as_buy, s.bybit.trades_as_sell), (0, 5));
    assert_eq!(s.binance.total_fees_paid, 5_000_000);
    assert_eq!(s.bybit.total_fees_paid, 10_000_000);
    assert_eq!(s.binance.total_pnl_contribution, 15_000_000);
    assert_eq!(s.bybit.total_pnl_contribution, 15_000_000);

    // A unit that cannot be halved is not lost.
    let odd = [trade(1, TradeType::Close, 7, None), trade(2, TradeType::Close, -3, None)];
    let s = compute_summary(&odd);
    assert_eq!(s.binance.total_pnl_contribution, 3 - 2);
    assert_eq!(s.bybit.total_pnl_contribution, 4 - 1);
}

#[test]
fn nothing_is_summarised_as_nothing() {
    let s = compute_summary(&[]);
    assert_eq!((s.total_trades, s.best_trade_pnl, s.win_rate), (0, 0, 0));
    let s = compute_summary(&[trade(1, TradeType::Open, -3_000_000, None)]);
    assert_eq!((s.total_trades, s.closed_trades, s.best_trade_pnl, s.worst_trade_pnl), (1, 0, 0, 0));
}

#[test]
fn trade_types_have_names() {
    assert_eq!(TradeType::Open.name(), "OPEN");
    assert_eq!(TradeType::Close.name(), "CLOSE");
    assert_eq!(default_trade_type(), TradeType::Close);
}

#[test]
fn the_summary_is_printed() {
    let empty = trade_summary(&[]);
    assert_eq!(empty[1], "\x1b[31;1m  📊 LIVE TRADING SUMMARY\x1b[0m");
    assert_eq!(empty[3], "  No live trades recorded yet.");
    assert_eq!(empty[6], "  Missed trade log: \x1b[90mmissed_trades.log\x1b[0m\n");
    assert_eq!(empty.len(), 7);

    let trades: Vec<TradeRecord> =
        (1..13).map(|i| trade(i, TradeType::Close, 50_000_000, None)).collect();
    let lines = trade_summary(&trades);
    let has = |text: &str| lines.iter().any(|l| l == text);
    assert!(has("  \x1b[37;1mTotal Trades:\x1b[0m  12"));
    assert!(has("  \x1b[32mWins:\x1b[0m          12  │  \x1b[31mLosses:\x1b[0m  0"));
    assert!(has("  \x1b[37;1mWin Rate:\x1b[0m      100.0%"));
    assert!(has("  \x1b[37;1mNet PnL:\x1b[0m       \x1b[32;1m$6.0000\x1b[0m"));
    assert!(has("  \x1b[37;1mTotal Fees:\x1b[0m     \x1b[33m-$0.3600\x1b[0m"));
    assert!(has("  Binance       12        0 \x1b[33m$    0.1200\x1b[0m \x1b[32m$    3.0000\x1b[0m"));
    assert!(has("\n  \x1b[31;1m── Last 10 Trades ──\x1b[0m\n"));
    assert!(has("  3      LONGCOI  Binance    Bybit         2.0000% \x1b[33m$  0.0300\x1b[0m \x1b[32m$  0.5000\x1b[0m   22:13:20"));
    assert!(!lines.iter().any(|l| l.starts_with("  2      LONGCOI")));
}

#[test]
fn a_coin_is_cut_by_bytes() {
    let named = |coin: &str| {
        let mut t = trade(1, TradeType::Close, 50_000_000, None);
        t.coin = coin.to_string();
        vec![t]
    };
    let shows = |coin: &str, start: &str| {
        let trades = named(coin);
        assert!(are_listable(&trades));
        let lines = trade_summary(&trades);
        assert!(lines.iter().any(|l| l.starts_with(start)), "{}", coin);
    };
    shows("SHORTER", "  1      SHORTER  Binance ");
    shows("ÄÖÜBTCUSDT", "  1      ÄÖÜB     Binance ");
    shows("币币BUSDT", "  1      币币B      Binance ");
    // The seventh byte ends no character.
    assert!(!are_listable(&named("币币币")));
    assert!(!are_listable(&named("ABÄÖÜX")));
    // Only the coins that are listed are looked at.
    let mut trades = named("币币币");
    trades.extend((2..12).map(|i| trade(i, TradeType::Close, 50_000_000, None)));
    assert!(are_listable(&trades));
    assert!(are_listable(&[]));
}

#[test]
fn a_record_is_written_as_one_json_line() {
    let mut t = trade(7, TradeType::Open, -150_000_000, Some(100_000_000));
    t.buy_book_bid_qty = Some(250_000_000);
    t.funding_interval_hours = Some(8);
    t.close_buy_order_id = Some("a\"b".to_string());
    let mut l = TradeLatency::new(Some(5));
    l.detected_buy_ask = Some(10_000_000_000);
    t.latency = Some(l);
    let line = t.to_json();
    assert!(!line.contains('\n'));
    assert!(line.starts_with("{\"id\":7,\"timestamp\":\"2023-11-14T22:13:20Z\",\"coin\":\"LONGCOINNAME\",\"exchange_buy\":\"Binance\",\"exchange_sell\":\"Bybit\",\"trade_type\":\"Open\","));

    let v: serde_json::Value = serde_json::from_str(&line).unwrap();
    assert_eq!(v["pnl_net"].as_f64(), Some(-1.5));
    assert_eq!(v["total_fee"].as_f64(), Some(0.03));
    assert_eq!(v["buy_book_bid_qty"].as_f64(), Some(2.5));
    assert!(v["buy_book_ask_qty"].is_null());
    assert_eq!(v["entry_spread"].as_f64(), Some(1.0));
    assert!(v.get("exit_spread").is_none());
    assert_eq!(v["funding_interval_hours"].as_u64(), Some(8));
    assert_eq!(v["close_buy_order_id"].as_str(), Some("a\"b"));
    assert_eq!(v["latency"]["book_update_ms"].as_i64(), Some(5));
    assert_eq!(v["latency"]["detected_buy_ask"].as_f64(), Some(100.0));

    // The time is written with as many digits as it has.
    t.timestamp_ns = 1_700_000_000_123_456_000;
    assert!(t.to_json().starts_with("{\"id\":7,\"timestamp\":\"2023-11-14T22:13:20.123456Z\","));

    let close = trade(8, TradeType::Close, 0, None).to_json();
    assert!(close.contains("\"trade_type\":\"Close\""));
    assert!(close.ends_with("\"sell_book_ask_qty\":null}"));
}
