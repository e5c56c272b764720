use live_arb::latency::{LegFailure, Reversal, TradeLatency};
use live_arb::price_store::Exchange;

#[test]
fn test_trade_latency_failure_derivation() {
    let mut latency = TradeLatency::new(Some(1000));
    latency.opportunity_detected_ms = Some(1005);
    latency.order_send_ms = Some(1010);
    latency.exchange_ack_ms = Some(1250);
    latency.buy_leg_rtt_ms = Some(70);
    latency.sell_leg_rtt_ms = Some(240);
    latency.reversal_rtt_ms = Some(80);
    assert!(latency.is_valid());
    latency.compute_derived();

    assert_eq!(latency.detection_to_send_ms, Some(5));
    assert_eq!(latency.send_to_ack_ms, Some(240));
    assert_eq!(latency.book_to_send_ms, Some(10));
    assert_eq!(latency.total_pipeline_ms, Some(250));
    assert_eq!(latency.buy_leg_rtt_ms, Some(70));
    assert_eq!(latency.sell_leg_rtt_ms, Some(240));
    assert_eq!(latency.reversal_rtt_ms, Some(80));

    let json = latency.to_json();
    assert!(json.contains("\"buy_leg_rtt_ms\":70"));
    assert!(json.contains("\"sell_leg_rtt_ms\":240"));
    assert!(json.contains("\"reversal_rtt_ms\":80"));
}

fn slow() -> TradeLatency {
    let mut l = TradeLatency::new(Some(1000));
    l.mark_detected_at(1200, 10_000_000_000, 10_100_000_000, 100_000_000);
    l.mark_pre_flight_at(1201, 10_021_000_000, 10_100_000_000, 79_000_000);
    l.order_send_ms = Some(1225);
    l.exchange_ack_ms = Some(1800);
    l.buy_leg_rtt_ms = Some(401);
    l.sell_leg_rtt_ms = Some(400);
    l.mark_ws_fill_at(1851);
    l
}

#[test]
fn a_slow_pipeline_is_diagnosed() {
    let l = slow();
    assert_eq!(l.detection_to_send_ms, Some(25));
    assert_eq!(l.send_to_ack_ms, Some(575));
    assert_eq!(l.ack_to_fill_ms, Some(51));
    assert_eq!(l.book_to_send_ms, Some(225));
    assert_eq!(l.total_pipeline_ms, Some(851));
    assert_eq!(
        l.latency_diagnosis.as_deref(),
        Some("STALE_BOOK(>200ms)|PROCESSING_DELAY(>20ms)|SLOW_REST(>500ms)|SLOW_BUY_LEG(>400ms)|SLOW_WS_FILL(>50ms)|MARKET_MOVED(buy_ask)")
    );
    let mut quick = TradeLatency::new(None);
    quick.compute_derived();
    assert_eq!(quick.diagnose(), "OK");
    assert_eq!(quick.total_pipeline_ms, None);
}

#[test]
fn without_a_book_the_pipeline_starts_at_detection() {
    let mut l = TradeLatency::new(None);
    l.mark_detected_at(1200, 1, 2, 3);
    l.exchange_ack_ms = Some(1300);
    l.compute_derived();
    assert_eq!(l.total_pipeline_ms, Some(100));
}

#[test]
fn a_summary_has_two_lines() {
    let lines = slow().log_summary("BTC", "T");
    assert_eq!(
        lines[0],
        "[T][Latency] BTC | book→send: 225ms | send→ack: 575ms (BuyLeg: 401ms, SellLeg: 400ms) | ack→fill: 51ms | total: 851ms | diag: STALE_BOOK(>200ms)|PROCESSING_DELAY(>20ms)|SLOW_REST(>500ms)|SLOW_BUY_LEG(>400ms)|SLOW_WS_FILL(>50ms)|MARKET_MOVED(buy_ask)"
    );
    assert_eq!(
        lines[1],
        "[T][Latency] BTC | detected: ask=100.000000/bid=101.000000 spread=1.000% | preflight: ask=100.210000/bid=101.000000 spread=0.790%"
    );
    let blank = TradeLatency::new(None).log_summary("BTC", "T");
    assert_eq!(
        blank[0],
        "[T][Latency] BTC | book→send: -1ms | send→ack: -1ms | ack→fill: -1ms | total: -1ms | diag: ?"
    );
}

#[test]
fn a_leg_failure_is_audited() {
    let failure = LegFailure {
        coin: "BTC".to_string(),
        buy_exchange: Exchange::Binance,
        sell_exchange: Exchange::Bybit,
        buy_ok: true,
        sell_ok: false,
        buy_rtt_ms: 70,
        sell_rtt_ms: 240,
        error: "Sell on Bybit failed: x".to_string(),
        reversal: Some(Reversal { exchange: Exchange::Binance, rtt_ms: 80, ok: false }),
    };
    let lines = TradeLatency::new(None).print_leg_failure_audit(&failure, "T");
    let text = lines.join("\n");
    assert!(text.contains("[T][LiveTrading] 🚨 ONE-LEG FAILURE LATENCY AUDIT: BTC"));
    assert!(text.contains("  Failure Reason: Sell on Bybit failed: x"));
    assert!(text.contains("    • Combined Send→ACK RTT: 240ms"));
    assert!(text.contains("    • Buy Leg  (Binance):     70ms [FILLED]"));
    assert!(text.contains("    • Sell Leg (Bybit  ):   240ms [FAILED]"));
    assert!(text.contains("    • Reversal (Binance):    80ms [FAILED - MANUAL ACTION REQUIRED]"));
    assert!(text.contains("    • Book Update → Send:      -1ms"));
    assert!(text.contains("    • Detected:  Ask=0.000000 / Bid=0.000000 (Spread: 0.000%)"));
}

#[test]
fn stages_are_stamped_by_the_clock() {
    let before = TradeLatency::now_ms();
    let mut l = TradeLatency::new(Some(before));
    l.mark_detected(1, 2, 3);
    l.mark_pre_flight(1, 2, 3);
    l.mark_order_send();
    l.mark_exchange_ack();
    l.mark_ws_fill();
    for stamp in [
        l.opportunity_detected_ms,
        l.pre_flight_check_ms,
        l.order_send_ms,
        l.exchange_ack_ms,
        l.ws_fill_ms,
    ] {
        assert!(stamp.unwrap() >= before && before > 1_600_000_000_000);
    }
    assert_eq!(l.detected_sell_bid, Some(2));
    assert!(l.latency_diagnosis.is_some());
    let mut bad = TradeLatency::new(Some(-1));
    assert!(!bad.is_valid());
    bad.book_update_ms = None;
    assert!(bad.is_valid());
}
