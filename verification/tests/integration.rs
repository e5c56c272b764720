use live_arb::config::DynamicSpreadConfig;
use live_arb::rejection::RejectionReason;
use live_arb::stats::RollingStats;

/// A percentage in fixed point.
fn pct(x: f64) -> i128 {
    (x * 1e8).round() as i128
}

#[test]
fn test_config_validation() {
    let mut config = DynamicSpreadConfig::default();
    config.minimum_entry_threshold_pct = 100_000_000;
    config.minimum_exit_threshold_pct = 50_000_000;
    config.maximum_exit_threshold_pct = 90_000_000;

    // One means one percent.
    assert_eq!(config.minimum_entry_threshold_pct as i128, pct(1.0));
    assert!(config.k_exit < config.k_entry);
    assert!(config.velocity_window_ms <= config.max_signal_age_ms);
    assert!(config.minimum_exit_threshold_pct <= config.maximum_exit_threshold_pct);
    assert!(config.minimum_samples > 0);
    assert!(config.warmup_seconds > 0);
}

fn warmed_up() -> RollingStats {
    let config = DynamicSpreadConfig::default();
    let mut stats = RollingStats::new(config, 0);
    for i in 0..60 {
        let val = if i % 2 == 0 { 0.20 } else { 0.25 };
        stats.update(pct(val), (i * 30_000) as u64);
    }
    stats
}

#[test]
fn test_old_vs_new_threshold() {
    let mut stats = warmed_up();
    let time_ms = 60 * 30_000;

    // A fixed threshold of 0.50% against the dynamic one.
    let old_threshold = pct(0.50);
    let new_threshold = stats.get_entry_threshold(time_ms).unwrap();
    assert!(new_threshold >= pct(0.60));

    // At 0.55% the fixed threshold enters and the dynamic one does not.
    let spread = pct(0.55);
    assert!(spread > old_threshold);
    assert_eq!(
        stats.evaluate_entry(spread, time_ms),
        Err(RejectionReason::SPREAD_BELOW_DYNAMIC_THRESHOLD)
    );
}

#[test]
fn test_hysteresis_no_oscillation() {
    let mut stats = warmed_up();
    let time_ms = 60 * 30_000;

    let entry = stats.get_entry_threshold(time_ms).unwrap();
    let exit = stats.get_exit_threshold(time_ms).unwrap();
    assert!(entry > exit + pct(0.1));

    // A spike above the entry threshold.
    let spike = entry + pct(0.1);
    stats.update(spike, time_ms + 1000);
    assert!(stats.evaluate_entry(spike, time_ms + 1000).is_ok());

    // Between the thresholds neither an entry nor an exit follows.
    let flutter = exit + pct(0.05);
    stats.update(flutter, time_ms + 2000);
    assert_eq!(
        stats.evaluate_entry(flutter, time_ms + 2000),
        Err(RejectionReason::SPREAD_BELOW_DYNAMIC_THRESHOLD)
    );
    assert_eq!(stats.evaluate_exit(flutter, time_ms + 2000, time_ms + 1000), false);
}

#[test]
fn test_full_restart_end_to_end() {
    let config = DynamicSpreadConfig::default();
    let stats = RollingStats::new(config, 0);
    assert_eq!(stats.can_trade(1000), Err(RejectionReason::INSUFFICIENT_HISTORY));
}
