use live_arb::clock::TimeOfDay;
use live_arb::config::TradingParams;
use live_arb::exchanges::exchange_info::ExchangeInfoCache;
use live_arb::live_trading::{LiveTradingEngine, OpenPosition};
use live_arb::price_store::{
    new_funding_store, new_status, new_store, CoinPrices, Exchange, ExchangeStatus,
};
use live_arb::renderer::{
    clamp_scroll, collect_rows, collect_rows_at, describe_positions, format_hold, format_price,
    min_max_indices, on_idle, on_key, order_rows, repaint_due, row_of, shown_end,
    status_indicator, write_footer, write_frame, write_loading_bar, write_panel_rule,
    write_panel_titles, write_position_line, write_price_cell, write_row_line, write_screen,
    write_spread_cell, write_status_line, write_table_rule, write_table_titles,
    write_trading_bar, Key, TableRow, UiState,
};

fn ui() -> UiState {
    UiState { scroll: 0, query: String::new(), searching: false }
}

fn engine() -> LiveTradingEngine {
    LiveTradingEngine::new(TradingParams::default(), String::new(), ExchangeInfoCache::new())
}

fn position() -> OpenPosition {
    OpenPosition {
        coin: "BTC".to_string(),
        buy_exchange: Exchange::Binance,
        sell_exchange: Exchange::Bybit,
        entry_buy_price: 10_000_000_000,
        entry_sell_price: 10_200_000_000,
        buy_filled_qty: 20_000_000,
        sell_filled_qty: 20_000_000,
        buy_quote_value: 0,
        sell_quote_value: 0,
        entry_buy_commission: 1_000_000,
        entry_sell_commission: 1_000_000,
        buy_order_id: String::new(),
        sell_order_id: String::new(),
        entry_spread: 200_000_000,
        open_time_ns: 1_000_000_000_000,
        entry_buy_book_bid: 0,
        entry_buy_book_ask: 0,
        entry_buy_book_bid_qty: None,
        entry_buy_book_ask_qty: None,
        entry_sell_book_bid: 0,
        entry_sell_book_ask: 0,
        entry_sell_book_bid_qty: None,
        entry_sell_book_ask_qty: None,
        funding_hours: 8,
        leg_left: None,
    }
}

fn row(coin: &str, spread: Option<i64>, open: bool) -> TableRow {
    TableRow {
        coin: coin.to_string(),
        binance: Some(10_000_000_000),
        bybit: Some(10_100_000_000),
        spread,
        has_open_position: open,
        funding_hours: 8,
        near_funding: false,
    }
}

fn press(ui: &mut UiState, status: &mut ExchangeStatus, keys: &str) {
    for c in keys.chars() {
        on_key(ui, status, Key::Char(c));
    }
}

#[test]
fn keys_quit() {
    let mut status = new_status();
    assert!(on_key(&mut ui(), &mut status, Key::CtrlC).quit);
    assert!(on_key(&mut ui(), &mut status, Key::Char('q')).quit);
    let mut searching = ui();
    searching.searching = true;
    assert!(!on_key(&mut searching, &mut status, Key::Char('q')).quit);
    assert_eq!(searching.query, "Q");
    assert!(on_key(&mut searching, &mut status, Key::CtrlC).quit);
    assert!(on_key(&mut ui(), &mut status, Key::Char('r')).clear_halt);
}

#[test]
fn keys_switch() {
    let mut status = new_status();
    let mut u = ui();
    press(&mut u, &mut status, "12t");
    assert!(!status.binance_enabled && !status.bybit_enabled && status.trading_enabled);
    press(&mut u, &mut status, "12T");
    assert!(status.binance_enabled && status.bybit_enabled && !status.trading_enabled);
    status.session_trades_taken = 9;
    let mut limits = vec![];
    for _ in 0..6 {
        press(&mut u, &mut status, "l");
        limits.push(status.trade_limit);
        if status.trade_limit == 0 {
            assert_eq!(status.session_trades_taken, 9);
        }
    }
    assert_eq!(limits, vec![2, 3, 5, 10, 0, 1]);
    assert_eq!(status.session_trades_taken, 0);
}

#[test]
fn keys_scroll() {
    let mut status = new_status();
    let mut u = ui();
    on_key(&mut u, &mut status, Key::Up);
    assert_eq!(u.scroll, 0);
    on_key(&mut u, &mut status, Key::PageDown);
    press(&mut u, &mut status, "jjk");
    assert_eq!(u.scroll, 21);
    on_key(&mut u, &mut status, Key::PageUp);
    assert_eq!(u.scroll, 1);
    on_key(&mut u, &mut status, Key::End);
    on_key(&mut u, &mut status, Key::Down);
    assert_eq!(u.scroll, usize::MAX);
    clamp_scroll(&mut u, 50, 20);
    assert_eq!(u.scroll, 30);
    on_idle(&mut u, 10_000);
    assert_eq!(u.scroll, 30);
    on_idle(&mut u, 10_001);
    assert_eq!(u.scroll, 0);
    assert_eq!(shown_end(30, 20, 50), 50);
    assert_eq!(shown_end(5, 20, 50), 25);
    assert!(repaint_due(true, 0) && repaint_due(false, 80) && !repaint_due(false, 79));
}

#[test]
fn a_query_is_typed() {
    let mut status = new_status();
    let mut u = ui();
    press(&mut u, &mut status, "/bt1");
    assert_eq!(u.query, "BT1");
    assert!(u.searching && status.binance_enabled);
    on_key(&mut u, &mut status, Key::Backspace);
    assert_eq!(u.query, "BT");
    on_key(&mut u, &mut status, Key::Enter);
    assert!(!u.searching);
    assert_eq!(u.query, "BT");
    on_key(&mut u, &mut status, Key::Esc);
    assert_eq!(u.query, "");
}

#[test]
fn rows_are_filtered() {
    let mut p = CoinPrices::default();
    p.binance = Some(10_000_000_000);
    p.bybit = Some(10_100_000_000);
    let mut status = new_status();
    let r = row_of("BTC", &p, "TC", &status, true, 4, false).unwrap();
    assert_eq!(r.spread, Some(100_000_000));
    assert!(r.has_open_position);
    assert_eq!(r.funding_hours, 4);
    assert!(row_of("BTC", &p, "ETH", &status, false, 8, false).is_none());
    status.bybit_enabled = false;
    let r = row_of("BTC", &p, "", &status, false, 8, false).unwrap();
    assert_eq!((r.bybit, r.spread), (None, None));
    status.binance_enabled = false;
    assert!(row_of("BTC", &p, "", &status, false, 8, false).is_none());
}

#[test]
fn rows_are_ordered() {
    let rows = vec![
        row("ZZZ", Some(10_000_000), false),
        row("AAA", None, false),
        row("MMM", Some(100_000_000), false),
        row("BBB", Some(12_000_000), false),
        row("OPEN", None, true),
        row("CCC", Some(13_000_000), false),
    ];
    let order = order_rows(&rows);
    let coins: Vec<&str> = order.iter().map(|i| rows[*i].coin.as_str()).collect();
    assert_eq!(coins, vec!["OPEN", "MMM", "CCC", "BBB", "ZZZ", "AAA"]);
}

#[test]
fn rows_are_collected() {
    let mut store = new_store();
    let mut p = CoinPrices::default();
    p.binance = Some(1);
    store.put("BTC".to_string(), p);
    store.put("ETH".to_string(), p);
    store.put("NONE".to_string(), CoinPrices::default());
    let mut e = engine();
    e.restore_position(position());
    let mut funding = new_funding_store();
    funding.or_insert("ETH".to_string(), 4);
    let now = TimeOfDay { hour: 4, minute: 2, second: 0 };
    let rows = collect_rows_at(&store, "", &new_status(), &e, &funding, now);
    assert_eq!(rows.len(), 2);
    let find = |coin: &str| rows.iter().find(|r| r.coin == coin).unwrap();
    assert!(find("BTC").has_open_position && !find("BTC").near_funding);
    assert_eq!(find("BTC").funding_hours, 8);
    assert!(!find("ETH").has_open_position && find("ETH").near_funding);
    assert_eq!(collect_rows(&store, "ET", &new_status(), &e, &funding).len(), 1);
}

#[test]
fn prices_get_places_by_their_size() {
    assert_eq!(format_price(123_456_000_000), "1234.56");
    assert_eq!(format_price(123_456_789), "1.2346");
    assert_eq!(format_price(12_345_678), "0.123457");
    assert_eq!(format_price(123_456), "0.00123456");
    assert_eq!(format_price(1_234), "0.0000123400");
    assert_eq!(min_max_indices(Some(1), Some(2)), (Some(0), Some(1)));
    assert_eq!(min_max_indices(Some(2), Some(1)), (Some(1), Some(0)));
    assert_eq!(min_max_indices(Some(1), Some(1)), (None, None));
    assert_eq!(min_max_indices(None, Some(1)), (None, None));
}

#[test]
fn cells_are_coloured() {
    let mut s = String::new();
    write_price_cell(&mut s, None, false, false);
    assert_eq!(s, "\x1b[90m│\x1b[90m—                 \x1b[0m");
    let mut s = String::new();
    write_price_cell(&mut s, Some(10_000_000_000), true, false);
    assert_eq!(s, "\x1b[90m│\x1b[32m100.0000          \x1b[0m");
    let mut s = String::new();
    write_spread_cell(&mut s, Some(100_000_000));
    assert_eq!(s, "\x1b[90m│\x1b[33;1m1.0000%     \x1b[0m");
    let color = |v: i64| {
        let mut s = String::new();
        write_spread_cell(&mut s, Some(v));
        s
    };
    assert!(color(99_999_999).contains("\x1b[33m"));
    assert!(color(29_999_999).contains("\x1b[93m"));
    assert!(color(9_999_999).contains("\x1b[37m"));
    let mut s = String::new();
    write_spread_cell(&mut s, None);
    assert_eq!(s, "\x1b[90m│\x1b[90mN/A         \x1b[0m");
}

#[test]
fn the_status_line_tells_the_state() {
    let mut status = new_status();
    status.binance_connected = true;
    status.binance_updates = 7;
    assert_eq!(
        write_status_line(&status, 3, "12:00:00", "BT"),
        "\x1b[30;46;1m ⚡ LIVE ARB │ 3 pairs │ 12:00:00 │ Bin⚡:🟢7 Byb⚡:🔴 │ \x1b[37m⚪ LIVE:OFF (Press T)\x1b[30;46;1m │ 🔍 BT\x1b[K\x1b[0m"
    );
    status.trading_enabled = true;
    assert!(write_status_line(&status, 3, "t", "").contains("🔴 LIVE:ON"));
    status.session_trades_taken = 1;
    assert!(write_status_line(&status, 3, "t", "").contains("⏹ LIMIT REACHED"));
    assert_eq!(status_indicator(true, false, 7), "⚪OFF");
}

#[test]
fn the_trading_bar_tells_the_books() {
    let mut e = engine();
    e.binance_balance = 1_520_000_000;
    e.bybit_balance = 1_480_000_000;
    e.total_pnl = 5_000_000;
    let status = new_status();
    assert_eq!(
        write_trading_bar(&e, &status, 0, 2_000_000_000, -1_000_000),
        "\x1b[37;100m 💰 Bin:\x1b[33;1m$15.20\x1b[0m\x1b[100m  Byb:\x1b[33;1m$20.00\x1b[0m\x1b[100m │ \x1b[33mOpen:0\x1b[0m\x1b[100m Closed:0 W:0 L:0 \x1b[36;1m[Limit:0/1]\x1b[0m\x1b[100m │ PnL:\x1b[32m$0.05\x1b[0m\x1b[100m │ Unrl:\x1b[31m$-0.01\x1b[0m\x1b[100m │ Fees:$0.00 \x1b[K\x1b[0m"
    );
    e.emergency_halt = true;
    assert!(write_trading_bar(&e, &status, 0, 0, 0).contains("[🚨HALT-R to reset]"));
    assert!(write_loading_bar().contains("Loading balances..."));
}

#[test]
fn positions_are_listed() {
    assert_eq!(format_hold(59), "59s");
    assert_eq!(format_hold(61), "1m1s");
    assert_eq!(format_hold(3_661), "1h1m");
    assert_eq!(
        write_panel_titles(),
        "\x1b[30;43;1m COIN     BUY@    ENTRY BUY      SELL@   ENTRY SELL     BUY QTY    SELL QTY   SPREAD%  HOLD         UNREAL PnL    \x1b[K\x1b[0m"
    );
    assert_eq!(
        write_position_line(&position(), 61, -5_000),
        "\x1b[33m BTC     \x1b[0m\x1b[32m Binance\x1b[0m\x1b[37m 100.0000      \x1b[0m\x1b[31m Bybit  \x1b[0m\x1b[37m 102.0000      \x1b[0m\x1b[36m 0.20      \x1b[0m\x1b[36m 0.20      \x1b[0m\x1b[33m 2.0000%\x1b[0m  \x1b[37m 1m1s    \x1b[0m  \x1b[31;1m $-0.0000\x1b[K\x1b[0m"
    );
    let mut e = engine();
    e.restore_position(position());
    let lines = describe_positions(&e, &new_store(), 1_061_000_000_000);
    assert_eq!(lines, vec![write_position_line(&position(), 61, -2_000_000)]);
    assert!(write_panel_rule().contains(&"─".repeat(68)));
}

#[test]
fn a_frame_fills_the_screen() {
    let mut r = row("BTC", Some(100_000_000), false);
    assert_eq!(
        write_row_line(&r, 0),
        "\x1b[36;1m BTC(8h)            \x1b[0m\x1b[90m│\x1b[32m100.0000          \x1b[0m\x1b[90m│\x1b[31m101.0000          \x1b[0m\x1b[90m│\x1b[33;1m1.0000%     \x1b[0m\x1b[K"
    );
    r.near_funding = true;
    assert!(write_row_line(&r, 1).starts_with("\x1b[31m⏸BTC(8h)"));
    r.has_open_position = true;
    assert!(write_row_line(&r, 1).starts_with("\x1b[33;1m●BTC(8h)"));
    assert_eq!(
        write_table_titles(),
        "\x1b[37;100;1m COIN               │BINANCE ⚡         │BYBIT ⚡           │SPREAD %    \x1b[K\x1b[0m"
    );
    assert_eq!(write_table_rule().matches('┼').count(), 3);

    let rows: Vec<TableRow> = (0..5).map(|i| row(&format!("C{}", i), None, false)).collect();
    let order = order_rows(&rows);
    let mut u = ui();
    u.scroll = 99;
    let status = new_status();
    let out = write_frame(&mut u, &status, "BAR", &vec![], &rows, &order, "t", 9);
    assert_eq!(u.scroll, 2);
    assert!(out.starts_with("\x1b[H\x1b[1;1H\x1b[30;46;1m"));
    assert!(out.contains("\x1b[2;1HBAR\x1b[3;1H\x1b[37;100;1m COIN"));
    assert!(out.contains("\x1b[5;1H\x1b[36;1m C2(8h)"));
    assert!(out.contains("\x1b[7;1H\x1b[36;1m C4(8h)"));
    assert!(!out.contains("C1(8h)"));
    assert!(out.ends_with("\x1b[9;1H\x1b[37;100m 1-2: Toggle │ T: LIVE OFF │ L: Limit: 0/1 │ R: ClearHalt │ ↑↓ Scroll │ /: Search │ q: Quit │ 3-5/5\x1b[K\x1b[0m"));

    let details = vec!["P".to_string()];
    let out = write_frame(&mut u, &status, "BAR", &details, &rows, &order, "t", 30);
    assert_eq!(u.scroll, 0);
    assert!(out.contains("\x1b[4;1HP\x1b[5;1H\x1b[90m"));
    assert!(out.contains("\x1b[13;1H\x1b[K"));

    u.searching = true;
    u.query = "BT".to_string();
    assert_eq!(
        write_footer(&u, &status, 0, 0),
        "\x1b[30;43;1m 🔍 Search: BT▌  (Enter=confirm, Esc=cancel)\x1b[K\x1b[0m"
    );
    assert_eq!(write_screen(&vec!["a".to_string()], "f", 0), "\x1b[H\x1b[1;1Ha\x1b[1;1Hf");
}
