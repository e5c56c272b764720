use live_arb::alerting::AlertThrottle;
use live_arb::clock::{now_nanos, whole_millis, whole_seconds, TimeOfDay};
use live_arb::env_file::{parse_env_file, parse_setting};
use live_arb::funding::{
    countdown, funding_countdown, is_any_position_near_funding, is_near_funding,
    is_near_funding_at, positions_near_funding_at, time_to_funding_at, time_to_next_funding,
};
use live_arb::metrics::{
    get_gauge, increment_rejection, set_gauge, Counters, Gauge, GaugeBoard, RejectionCounters,
};
use live_arb::opportunity_logger::{log_opportunity, OpportunityRecord, OpportunityThrottle};
use live_arb::price_store::new_funding_store;
use live_arb::rejection::RejectionReason;

fn at(hour: u32, minute: u32, second: u32) -> TimeOfDay {
    TimeOfDay { hour, minute, second }
}

#[test]
fn five_minutes_around_funding_are_paused() {
    for (time, near) in [
        (at(8, 0, 0), true),
        (at(8, 5, 59), true),
        (at(8, 6, 0), false),
        (at(7, 54, 59), false),
        (at(7, 55, 0), true),
        (at(23, 55, 0), true),
        (at(0, 0, 0), true),
        (at(4, 0, 0), false),
    ] {
        assert_eq!(is_near_funding_at(8, time), near);
    }
    assert!(is_near_funding_at(4, at(4, 0, 0)));
    assert!(is_near_funding_at(1, at(5, 57, 0)));
    assert!(!is_near_funding_at(0, at(0, 0, 0)));
}

#[test]
fn the_next_funding_is_ahead() {
    assert_eq!(time_to_funding_at(8, at(7, 59, 30)), 30);
    assert_eq!(time_to_funding_at(8, at(8, 0, 0)), 8 * 3600);
    assert_eq!(time_to_funding_at(0, at(8, 0, 0)), 0);
    assert_eq!(countdown(0), "NOW");
    assert_eq!(countdown(272), "4m 32s");
    assert_eq!(countdown(3600), "60m 0s");
    assert_eq!(countdown(3660), "1h 1m");
}

#[test]
fn funding_of_coins() {
    let mut funding = new_funding_store();
    funding.or_insert("FAST".to_string(), 1);
    funding.or_insert("NEVER".to_string(), 0);
    let coins = vec!["BTC".to_string(), "FAST".to_string(), "NEVER".to_string()];
    assert_eq!(
        positions_near_funding_at(&coins, &funding, at(5, 1, 0)),
        vec!["FAST".to_string()]
    );
    assert_eq!(positions_near_funding_at(&coins, &funding, at(8, 1, 0)).len(), 2);
    assert!(!is_near_funding("NEVER", &funding));
    assert_eq!(time_to_next_funding("NEVER", &funding), 0);
    assert_eq!(funding_countdown("NEVER", &funding), "NOW");
    let left = time_to_next_funding("FAST", &funding);
    assert!(0 < left && left <= 3600);
    assert!(!is_any_position_near_funding(&coins, &funding).contains(&"NEVER".to_string()));
}

#[test]
fn seconds_drop_their_fraction() {
    assert_eq!(whole_seconds(1_000_000_000, 2_999_999_999), 1);
    assert_eq!(whole_seconds(2_999_999_999, 1_000_000_000), -1);
    assert_eq!(whole_seconds(i64::MIN, i64::MAX), 18446744073);
    assert_eq!(whole_millis(1_999_999), 1);
    assert_eq!(whole_millis(-1), 0);
    let now = now_nanos();
    assert!(now > 1_600_000_000_000_000_000 && now_nanos() >= now);
}

#[test]
fn alerts_pause_for_a_minute() {
    let mut t = AlertThrottle::new();
    assert_eq!(t.send_alert("one", 1000), Some("[ALERT] one".to_string()));
    assert_eq!(t.send_alert("two", 60_999), None);
    assert_eq!(t.send_alert("three", 61_000), Some("[ALERT] three".to_string()));
    assert_eq!(t.send_alert("four", 61_001), None);
}

#[test]
fn rejections_are_counted() {
    let mut c = RejectionCounters::new();
    assert_eq!(c.count("WARMUP"), 0);
    increment_rejection(&mut c, "WARMUP");
    increment_rejection(&mut c, "WARMUP");
    increment_rejection(&mut c, "COOLDOWN");
    assert_eq!(c.count("WARMUP"), 2);
    assert_eq!(c.count("COOLDOWN"), 1);
    assert_eq!(Counters::default().entry_count, 0);
}

#[test]
fn gauges_are_kept_apart() {
    let mut b = GaugeBoard::new();
    assert_eq!(get_gauge(&b, "BTC", Gauge::ZScore), None);
    set_gauge(&mut b, "BTC", Gauge::ZScore, 7);
    set_gauge(&mut b, "BTC", Gauge::NetEdge, 8);
    set_gauge(&mut b, "ETH", Gauge::ZScore, 9);
    assert_eq!(get_gauge(&b, "BTC", Gauge::ZScore), Some(7));
    assert_eq!(get_gauge(&b, "BTC", Gauge::NetEdge), Some(8));
    assert_eq!(get_gauge(&b, "BTC", Gauge::GrossSpread), Some(0));
    assert_eq!(get_gauge(&b, "ETH", Gauge::ZScore), Some(9));
}

#[test]
fn reasons_have_their_names() {
    assert_eq!(RejectionReason::WARMUP.name(), "WARMUP");
    assert_eq!(RejectionReason::EXCHANGE_UNHEALTHY.name(), "EXCHANGE_UNHEALTHY");
    assert_eq!(
        RejectionReason::SPREAD_BELOW_DYNAMIC_THRESHOLD.name(),
        "SPREAD_BELOW_DYNAMIC_THRESHOLD"
    );
}

fn opportunity(reject: Option<RejectionReason>) -> OpportunityRecord {
    OpportunityRecord {
        timestamp_ns: 1_700_000_000_000_000_000,
        symbol: "BTC".to_string(),
        direction: "Binance->Bybit".to_string(),
        raw_bid: 10_100_000_000,
        raw_ask: 10_000_000_000,
        effective_buy_price: 10_000_000_000,
        effective_sell_price: 10_100_000_000,
        gross_spread_pct: 100_000_000,
        effective_spread_pct: 100_000_000,
        baseline_spread_pct: 0,
        spread_volatility_pct: 5_000_000,
        dynamic_entry_threshold_pct: 60_000_000,
        dynamic_exit_threshold_pct: 10_000_000,
        z_score: 0,
        spread_velocity: -50_000_000,
        expected_slippage_pct: 0,
        buy_fee_pct: 5_000_000,
        sell_fee_pct: 5_500_000,
        net_edge_pct: 89_500_000,
        signal_age_ms: 12,
        liquidity_ok: true,
        data_fresh_ok: true,
        entry_decision: reject.is_none(),
        reject_reason: reject,
        exit_trigger_condition: None,
    }
}

#[test]
fn opportunities_are_logged_as_json() {
    let json = opportunity(Some(RejectionReason::WARMUP)).to_json();
    assert!(json.starts_with(
        "{\"timestamp\":\"2023-11-14T22:13:20Z\",\"symbol\":\"BTC\",\"direction\":\"Binance->Bybit\",\"raw_bid\":101.0,\"raw_ask\":100.0,"
    ));
    assert!(json.contains("\"spread_velocity\":-0.5,"));
    assert!(json.contains("\"net_edge_pct\":0.895,"));
    assert!(json.contains("\"signal_age_ms\":12,\"liquidity_ok\":true,"));
    assert!(json.ends_with(
        "\"entry_decision\":false,\"reject_reason\":\"WARMUP\",\"exit_trigger_condition\":null}"
    ));
    assert!(opportunity(None).to_json().contains("\"entry_decision\":true,\"reject_reason\":null,"));
}

#[test]
fn the_same_opportunity_is_held_back_for_a_second() {
    let mut t = OpportunityThrottle::new();
    let warm = opportunity(Some(RejectionReason::WARMUP));
    assert_eq!(log_opportunity(&mut t, &warm, 1000), Some(warm.to_json()));
    assert_eq!(log_opportunity(&mut t, &warm, 1999), None);
    assert!(log_opportunity(&mut t, &opportunity(None), 1999).is_some());
    assert!(log_opportunity(&mut t, &warm, 1999).is_some());
    assert!(log_opportunity(&mut t, &warm, 2999).is_some());
    let mut other = opportunity(Some(RejectionReason::WARMUP));
    other.direction = "Bybit->Binance".to_string();
    assert!(log_opportunity(&mut t, &other, 2999).is_some());
}

#[test]
fn settings_are_read_from_lines() {
    assert_eq!(
        parse_setting("  KEY = \"value\" "),
        Some(("KEY".to_string(), "value".to_string()))
    );
    assert_eq!(parse_setting("KEY='a=b'"), Some(("KEY".to_string(), "a=b".to_string())));
    assert_eq!(parse_setting("# KEY=value"), None);
    assert_eq!(parse_setting(""), None);
    assert_eq!(parse_setting("KEY"), None);
    assert_eq!(parse_setting("KEY="), None);
    assert_eq!(parse_setting("KEY=\"\""), None);
    assert_eq!(parse_setting("KEY=paste-your-key-here"), None);
    assert_eq!(
        parse_env_file("A=1\r\n#B=2\n\nC= 3\nD"),
        vec![("A".to_string(), "1".to_string()), ("C".to_string(), "3".to_string())]
    );
}
