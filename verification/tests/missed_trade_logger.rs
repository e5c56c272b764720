use live_arb::latency::TradeLatency;
use live_arb::missed_trade_logger::{
    log_missed_trade, reason_category, MissedTradeRecord, ThrottleMap,
};
use live_arb::price_store::Exchange;

#[test]
fn test_reason_category() {
    assert_eq!(reason_category("COOLDOWN: 15s remaining"), "COOLDOWN");
    assert_eq!(
        reason_category("MAX_POSITIONS_REACHED (1/1 active)"),
        "MAX_POSITIONS_REACHED"
    );
    assert_eq!(
        reason_category("INSUFFICIENT_BALANCE"),
        "INSUFFICIENT_BALANCE"
    );
    assert_eq!(
        reason_category("LEG_FILL_FAILED: Sell on Bybit failed"),
        "LEG_FILL_FAILED"
    );
}

fn record() -> MissedTradeRecord {
    MissedTradeRecord {
        timestamp_ns: 1_700_000_000_123_456_789,
        coin: "FORM".to_string(),
        spread_pct: 145_000_000,
        threshold_pct: 130_000_000,
        buy_exchange: Exchange::Binance,
        sell_exchange: Exchange::Bybit,
        buy_price: 30_590_000,
        sell_price: 31_030_000,
        book_spread_pct: Some(143_800_000),
        reason: "MAX_POSITIONS_REACHED: Currently 1/1 open positions".to_string(),
        binance_balance: 1_520_000_000,
        bybit_balance: 1_480_000_000,
        latency: None,
    }
}

#[test]
fn test_record_json_serialization() {
    let mut record = record();
    let json = record.to_json();
    assert!(json.contains("\"coin\":\"FORM\""));
    assert!(json.contains("\"spread_pct\":1.45"));
    assert!(json.contains("MAX_POSITIONS_REACHED"));
    assert!(!json.contains("\"latency\""));

    // With a latency profile.
    let mut lat = TradeLatency::new(Some(1000));
    lat.order_send_ms = Some(1010);
    lat.exchange_ack_ms = Some(1250);
    lat.buy_leg_rtt_ms = Some(65);
    lat.sell_leg_rtt_ms = Some(240);
    lat.compute_derived();
    record.latency = Some(lat);

    let json_with_lat = record.to_json();
    assert!(json_with_lat.contains("\"latency\""));
    assert!(json_with_lat.contains("\"buy_leg_rtt_ms\":65"));
    assert!(json_with_lat.contains("\"sell_leg_rtt_ms\":240"));
    assert!(json_with_lat.contains("\"send_to_ack_ms\":240"));
}

#[test]
fn json_of_a_missed_trade() {
    assert_eq!(
        record().to_json(),
        "{\"timestamp\":\"2023-11-14T22:13:20.123456789Z\",\"coin\":\"FORM\",\"spread_pct\":1.45,\"threshold_pct\":1.3,\"buy_exchange\":\"Binance\",\"sell_exchange\":\"Bybit\",\"buy_price\":0.3059,\"sell_price\":0.3103,\"book_spread_pct\":1.438,\"reason\":\"MAX_POSITIONS_REACHED: Currently 1/1 open positions\",\"binance_balance\":15.2,\"bybit_balance\":14.8}"
    );
}

#[test]
fn line_of_a_missed_trade() {
    assert_eq!(
        record().text_line(),
        "[2023-11-14 22:13:20 UTC] MISSED | COIN: FORM     | Spread:  1.450% (Min: 1.30%) | BUY: Binance @ 0.305900   | SELL: Bybit   @ 0.310300   | BookSpread: 1.438% | REASON: MAX_POSITIONS_REACHED: Currently 1/1 open positions | Balances: Binance=$15.20, Bybit=$14.80\n"
    );
}

#[test]
fn the_line_tells_the_latency() {
    let mut r = record();
    let mut lat = TradeLatency::new(None);
    lat.buy_leg_rtt_ms = Some(65);
    lat.reversal_rtt_ms = Some(80);
    r.latency = Some(lat);
    assert!(r
        .text_line()
        .ends_with(" | LATENCY: RTT: (BuyLeg: 65ms, SellLeg: ?) | Reversal: 80ms\n"));
}

#[test]
fn the_same_category_is_held_back_for_a_while() {
    let mut throttle = ThrottleMap::new();
    assert!(throttle.should_log_at("BTC", "COOLDOWN: 15s remaining", 1000));
    assert!(!throttle.should_log_at("BTC", "COOLDOWN: 14s remaining", 5999));
    assert!(throttle.should_log_at("ETH", "COOLDOWN: 14s remaining", 5999));
    assert!(throttle.should_log_at("BTC", "MARGIN", 5999));
    assert!(!throttle.should_log_at("BTC", "MARGIN", 10998));
    assert!(throttle.should_log_at("BTC", "MARGIN", 10999));
}

#[test]
fn failures_are_never_held_back() {
    let mut throttle = ThrottleMap::new();
    for reason in ["LEG_FILL_FAILED: x", "BOTH_LEGS_FAILED: y", "ONE_LEG_FAILED (z)"] {
        assert!(throttle.should_log("BTC", reason));
        assert!(throttle.should_log("BTC", reason));
    }
    let mut r = record();
    assert!(log_missed_trade(&mut throttle, &r, 1000).is_some());
    assert!(log_missed_trade(&mut throttle, &r, 1001).is_none());
    r.reason = "LEG_FILL_FAILED: again".to_string();
    let lines = log_missed_trade(&mut throttle, &r, 1002).unwrap();
    assert_eq!(lines.text, r.text_line());
    assert_eq!(lines.json, r.to_json());
}
