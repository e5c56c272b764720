use live_arb::exchanges::binance_private_ws::{
    on_account_update, on_order_update, stream_url, BalanceEntry, OrderUpdate, LISTEN_KEY_URL,
};
use live_arb::exchanges::bybit_private_ws::{
    auth_message, auth_reply, is_control, on_execution, on_order, on_wallet, subscribe_message,
    ExecutionEvent, OrderEvent, WalletCoin,
};
use live_arb::exchanges::fill_channel::{new_live_balance, new_pending_fill_map, FillEvent};
use live_arb::exchanges::signing::sign;

fn update(status: &str, client_id: &str, qty: &str) -> OrderUpdate {
    OrderUpdate {
        status: status.to_string(),
        order_id: 77,
        client_order_id: client_id.to_string(),
        cum_filled_qty: qty.to_string(),
        avg_price: "100".to_string(),
        trade_time: 5,
        commission: "-0.02".to_string(),
    }
}

#[test]
fn a_fill_reaches_the_order_that_waits() {
    let mut pending = new_pending_fill_map();
    let mut waiting = pending.register("arb1").into_end();
    assert!(pending.contains("arb1"));
    assert!(on_order_update(&mut pending, &update("FILLED", "arb1", "0.5")).unwrap().deliver());
    let event = waiting.try_recv().unwrap();
    assert_eq!(event.order_id, "77");
    assert_eq!(event.avg_price, 10_000_000_000);
    assert_eq!(event.filled_qty, 50_000_000);
    assert_eq!(event.quote_qty, 5_000_000_000);
    assert_eq!(event.commission, 2_000_000);
    assert_eq!(event.timestamp, 5);
    assert!(!event.is_expired);

    // An order is resolved once.
    assert!(!pending.contains("arb1"));
    assert!(on_order_update(&mut pending, &update("FILLED", "arb1", "0.5")).is_none());
}

#[test]
fn the_exchange_id_is_the_second_key() {
    let mut pending = new_pending_fill_map();
    let mut waiting = pending.register("77").into_end();
    assert!(on_order_update(&mut pending, &update("EXPIRED", "other", "0")).unwrap().deliver());
    assert!(waiting.try_recv().unwrap().is_expired);
}

#[test]
fn orders_in_progress_are_left_waiting() {
    let mut pending = new_pending_fill_map();
    let mut waiting = pending.register("arb1").into_end();
    assert!(on_order_update(&mut pending, &update("PARTIALLY_FILLED", "arb1", "0.1")).is_none());
    assert!(waiting.try_recv().is_err());
    assert!(pending.contains("arb1"));
    for (status, qty, expired) in [
        ("FILLED", "0", false),
        ("EXPIRED", "0.1", false),
        ("CANCELED", "0", true),
        ("REJECTED", "", true),
    ] {
        let event: FillEvent = update(status, "arb1", qty).fill_event().unwrap();
        assert_eq!(event.is_expired, expired);
    }
    assert!(update("NEW", "arb1", "0").fill_event().is_none());
}

#[test]
fn a_forgotten_order_gets_nothing() {
    let mut pending = new_pending_fill_map();
    let mut waiting = pending.register("arb1").into_end();
    pending.forget("arb1");
    assert!(!pending.contains("arb1"));
    assert!(on_order_update(&mut pending, &update("FILLED", "arb1", "0.5")).is_none());
    assert!(waiting.try_recv().is_err());
}

fn balance(asset: &str, wallet: &str, cross: &str) -> BalanceEntry {
    BalanceEntry {
        asset: asset.to_string(),
        wallet_balance: wallet.to_string(),
        cross_wallet_balance: cross.to_string(),
    }
}

#[test]
fn the_cross_wallet_counts_first() {
    let mut live = new_live_balance();
    assert_eq!(live.usdt, 0);
    on_account_update(&mut live, &vec![balance("BNB", "9", "9"), balance("USDT", "1", "2")]);
    assert_eq!(live.usdt, 200_000_000);
    on_account_update(&mut live, &vec![balance("USDT", "3", "0")]);
    assert_eq!(live.usdt, 300_000_000);
    on_account_update(&mut live, &vec![balance("USDT", "", "")]);
    assert_eq!(live.usdt, 300_000_000);
    on_account_update(&mut live, &vec![balance("USDT", "x", "y")]);
    assert_eq!(live.usdt, 300_000_000);
}

#[test]
fn binance_addresses() {
    assert_eq!(LISTEN_KEY_URL, "https://fapi.binance.com/fapi/v1/listenKey");
    assert_eq!(stream_url("abc"), "wss://fstream.binance.com/ws/abc");
}

fn execution(kind: &str) -> ExecutionEvent {
    ExecutionEvent {
        order_id: "id".to_string(),
        order_link_id: "arb-1".to_string(),
        price: "100".to_string(),
        qty: "0.5".to_string(),
        value: "50".to_string(),
        fee: "-0.02".to_string(),
        time: "1700".to_string(),
        kind: kind.to_string(),
    }
}

fn order(status: &str, qty: &str) -> OrderEvent {
    OrderEvent {
        order_id: "id".to_string(),
        order_link_id: "arb-1".to_string(),
        status: status.to_string(),
        avg_price: "100".to_string(),
        cum_qty: qty.to_string(),
        cum_value: "50".to_string(),
        cum_fee: "0.02".to_string(),
        updated: "x".to_string(),
    }
}

#[test]
fn an_execution_fills_and_the_terminal_status_comes_too_late() {
    let mut pending = new_pending_fill_map();
    let mut waiting = pending.register("arb-1").into_end();
    assert!(on_execution(&mut pending, &execution("Funding")).is_none());
    assert!(on_execution(&mut pending, &execution("Trade")).unwrap().deliver());
    let event = waiting.try_recv().unwrap();
    assert_eq!(event.order_id, "id");
    assert_eq!(event.filled_qty, 50_000_000);
    assert_eq!(event.quote_qty, 5_000_000_000);
    assert_eq!(event.commission, 2_000_000);
    assert_eq!(event.timestamp, 1700);
    assert!(!event.is_expired);
    assert!(on_order(&mut pending, &order("Filled", "0.5")).is_none());
}

#[test]
fn an_order_that_ends_unfilled_fails_fast() {
    for status in ["Cancelled", "Expired", "PartiallyFilledCanceled", "Rejected"] {
        let mut pending = new_pending_fill_map();
        let mut waiting = pending.register("id").into_end();
        assert!(on_order(&mut pending, &order(status, "0")).unwrap().deliver());
        let event = waiting.try_recv().unwrap();
        assert!(event.is_expired);
        assert_eq!(event.timestamp, 0);
    }
    assert!(!order("Filled", "0").fill_event().unwrap().is_expired);
    assert!(!order("Cancelled", "0.1").fill_event().unwrap().is_expired);
    assert!(order("New", "0").fill_event().is_none());
    assert!(execution("").fill_event().is_some());
}

fn wallet(coin: &str, wallet: &str, withdraw: &str) -> WalletCoin {
    WalletCoin {
        coin: coin.to_string(),
        available_to_withdraw: withdraw.to_string(),
        wallet_balance: wallet.to_string(),
    }
}

#[test]
fn the_wallet_balance_counts_first() {
    let mut live = new_live_balance();
    on_wallet(&mut live, &vec![wallet("BTC", "9", "9"), wallet("USDT", "5", "4")]);
    assert_eq!(live.usdt, 500_000_000);
    on_wallet(&mut live, &vec![wallet("USDT", "", "4")]);
    assert_eq!(live.usdt, 400_000_000);
    on_wallet(&mut live, &vec![wallet("USDT", "x", "7")]);
    assert_eq!(live.usdt, 400_000_000);
}

#[test]
fn bybit_messages() {
    assert_eq!(
        auth_message("key-id", "key", 1700),
        format!(
            "{{\"args\":[\"key-id\",1700,\"{}\"],\"op\":\"auth\"}}",
            sign("key", "GET/realtime1700")
        )
    );
    assert_eq!(
        subscribe_message(),
        "{\"args\":[\"execution\",\"order\",\"wallet\"],\"op\":\"subscribe\"}"
    );
    assert!(is_control("pong") && is_control("ping") && is_control("subscribe"));
    assert!(!is_control("") && !is_control("auth"));
    assert_eq!(auth_reply("auth", true), Some(true));
    assert_eq!(auth_reply("auth", false), Some(false));
    assert_eq!(auth_reply("subscribe", true), None);
}
