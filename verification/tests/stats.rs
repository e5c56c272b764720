use live_arb::config::DynamicSpreadConfig;
use live_arb::rejection::RejectionReason;
use live_arb::stats::{
    compute_effective_spread, compute_median, compute_vwap, is_config_fitting, OrderBookLevel,
    RollingStats, VwapError, MULTIPLIER_LIMIT, SPREAD_LIMIT,
};

fn fixed(x: f64) -> i128 {
    (x * 1e8).round() as i128
}

fn float(v: i128) -> f64 {
    v as f64 / 1e8
}

fn level(price: f64, qty: f64) -> OrderBookLevel {
    OrderBookLevel { price: fixed(price) as u64, qty: fixed(qty) as u64 }
}

fn amount(x: f64) -> u64 {
    fixed(x) as u64
}

fn percent(x: f64) -> i64 {
    fixed(x) as i64
}

#[test]
fn test_compute_median() {
    let mut data = vec![fixed(1.0), fixed(5.0), fixed(3.0), fixed(4.0), fixed(2.0)];
    assert_eq!(compute_median(&mut data), fixed(3.0));

    let mut data2 = vec![fixed(1.0), fixed(4.0), fixed(2.0), fixed(3.0)];
    assert_eq!(compute_median(&mut data2), fixed(2.5));
}

#[test]
fn medians_of_extreme_values_do_not_overflow() {
    let mut data = vec![i128::MAX, i128::MAX];
    assert_eq!(compute_median(&mut data), i128::MAX);
    let mut data = vec![i128::MIN, i128::MIN + 1];
    assert_eq!(compute_median(&mut data), i128::MIN);
    let mut data = vec![i128::MAX, i128::MIN];
    assert_eq!(compute_median(&mut data), -1);
    assert_eq!(data, vec![i128::MIN, i128::MAX]);
}

#[test]
fn statistics_stay_in_order_and_outliers_enter_as_the_cap() {
    let mut a = RollingStats::new(DynamicSpreadConfig::default(), 0);
    let bucket = a.config.stats_bucket_seconds * 1000;
    let mut ts = 1;
    for x in [0.3, 0.9, -0.2, 0.5, 0.4, 1.7, 0.1] {
        a.update(fixed(x), ts);
        ts += bucket;
        assert!(a.recent_min <= a.rolling_median && a.rolling_median <= a.recent_max);
        assert!(a.rolling_mad >= 0 && a.rolling_std >= 0);
    }
    assert!(a.rolling_mad > 0);
    let mut b = a.clone();
    a.update(fixed(500.0), ts);
    b.update(fixed(900.0), ts);
    assert_eq!((a.last_spread, b.last_spread), (fixed(500.0), fixed(900.0)));
    for x in [0.2, 0.6, 0.3] {
        ts += bucket;
        a.update(fixed(x), ts);
        b.update(fixed(x), ts);
        assert_eq!((a.rolling_median, a.rolling_mean), (b.rolling_median, b.rolling_mean));
        assert_eq!((a.rolling_std, a.rolling_mad), (b.rolling_std, b.rolling_mad));
        assert_eq!((a.recent_min, a.recent_max), (b.recent_min, b.recent_max));
        assert_eq!(a.sample_count, b.sample_count);
    }
}

#[test]
fn spreads_of_any_size_are_judged() {
    let mut s = RollingStats::new(DynamicSpreadConfig::default(), 0);
    let step = s.config.stats_bucket_seconds * 1000;
    let mut ts = 1;
    for i in 0..2000u64 {
        s.update(fixed(if i % 2 == 0 { 0.2 } else { 0.25 }), ts);
        ts += step;
    }
    assert!(s.can_trade(ts).is_ok());
    assert_eq!(s.evaluate_entry(i128::MAX, ts), Err(RejectionReason::INVALID_ORDERBOOK));
    assert_eq!(
        s.evaluate_entry(i128::MIN, ts),
        Err(RejectionReason::SPREAD_BELOW_DYNAMIC_THRESHOLD)
    );
}

#[test]
fn the_largest_spreads_are_kept_as_they_are() {
    let mut s = RollingStats::new(DynamicSpreadConfig::default(), 0);
    let step = s.config.stats_bucket_seconds * 1000;
    s.update(SPREAD_LIMIT, 1);
    s.update(-SPREAD_LIMIT, 1 + step);
    assert_eq!((s.rolling_median, s.rolling_mad, s.rolling_std), (SPREAD_LIMIT, 0, 0));
    s.update(0, 1 + 2 * step);
    assert_eq!((s.rolling_median, s.rolling_mean, s.rolling_mad), (0, 0, SPREAD_LIMIT));
    assert_eq!(s.rolling_std, SPREAD_LIMIT);
    assert_eq!((s.recent_min, s.recent_max), (-SPREAD_LIMIT, SPREAD_LIMIT));
    assert_eq!(s.sample_count, 3);
    // The spread of the smallest and the largest price is in range.
    assert!(u64::MAX as i128 * 10_000_000_000 < SPREAD_LIMIT);

    // Three values: the standard deviation is rounded down.
    let mut s = RollingStats::new(DynamicSpreadConfig::default(), 0);
    for (i, x) in [1, 2, 4, 0].into_iter().enumerate() {
        s.update(x * 10_000_000_000_000_000_000_000, 1 + i as u64 * step);
    }
    assert_eq!(s.rolling_mean, 23_333_333_333_333_333_333_333);
    assert_eq!(s.rolling_std, 12_472_191_289_246_471_285_279);
}

#[test]
fn median_of_nothing_is_zero() {
    let mut data: Vec<i128> = Vec::new();
    assert_eq!(compute_median(&mut data), 0);
}

#[test]
fn test_vwap_walk() {
    let asks = vec![level(100.0, 10.0), level(101.0, 10.0), level(102.0, 10.0)];

    // 10 at 100 and 5 at 101 cost 1505.
    let vwap = compute_vwap(&asks, amount(15.0), 10, percent(5.0), true).unwrap();
    assert!((float(vwap as i128) - 100.333333).abs() < 1e-5);
}

#[test]
fn test_vwap_invalid_depth() {
    let asks = vec![level(100.0, 10.0)];
    let result = compute_vwap(&asks, amount(15.0), 10, percent(5.0), true);
    assert_eq!(result, Err(VwapError::InsufficientDepth));
}

#[test]
fn test_vwap_invalid_max_levels() {
    let asks = vec![level(100.0, 1.0), level(101.0, 1.0), level(102.0, 10.0)];

    // The first two levels hold 2 of the 5.
    let result = compute_vwap(&asks, amount(5.0), 2, percent(5.0), true);
    assert_eq!(result, Err(VwapError::MaxDepthExceeded));
}

#[test]
fn test_vwap_invalid_slippage() {
    let asks = vec![level(100.0, 5.0), level(105.0, 10.0)];
    let result = compute_vwap(&asks, amount(10.0), 10, percent(4.0), true);
    assert_eq!(result, Err(VwapError::MaxSlippageExceeded));
}

#[test]
fn slippage_of_a_sale_counts_downwards() {
    let bids = vec![level(100.0, 5.0), level(95.0, 10.0)];
    assert_eq!(
        compute_vwap(&bids, amount(10.0), 10, percent(4.0), false),
        Err(VwapError::MaxSlippageExceeded)
    );
    assert_eq!(
        compute_vwap(&bids, amount(10.0), 10, percent(5.0), false),
        Ok(amount(97.5))
    );
}

#[test]
fn test_effective_spread_asymmetric() {
    let binance_asks = vec![level(100.0, 10.0), level(101.0, 10.0)];
    let bybit_bids = vec![level(105.0, 10.0), level(104.0, 10.0)];

    // Bought at 1505 / 15, sold at 1570 / 15.
    let spread_a =
        compute_effective_spread(&binance_asks, &bybit_bids, amount(15.0), 5, percent(5.0)).unwrap();
    assert!((float(spread_a) - 4.3189).abs() < 1e-3);

    let bybit_asks = vec![level(95.0, 20.0)];
    let binance_bids = vec![level(98.0, 20.0)];
    let spread_b =
        compute_effective_spread(&bybit_asks, &binance_bids, amount(15.0), 5, percent(5.0)).unwrap();
    assert!((float(spread_b) - 3.1578).abs() < 1e-3);

    assert!(spread_a != spread_b);
}

#[test]
fn test_rolling_stats_winsorization_divergence() {
    let mut config = DynamicSpreadConfig::default();
    config.stats_window_seconds = 14400;
    config.stats_bucket_seconds = 30;
    config.outlier_cap_multiplier = percent(8.0);
    let mut stats = RollingStats::new(config, 0);

    let mut time = 1000;
    let medians = vec![0.20, 0.21, 0.19, 0.22, 0.18, 0.20, 0.21, 0.19, 0.22, 0.18];
    for &m in &medians {
        stats.update(fixed(m), time);
        stats.update(fixed(m + 0.01), time + 10);
        stats.update(fixed(m - 0.01), time + 20);

        // Thirty seconds later the bucket closes.
        time += 30000;
        stats.update(fixed(m), time);
    }

    let median_before = float(stats.rolling_median);
    let mad_before = float(stats.rolling_mad);
    assert!(mad_before > 0.0, "mad_before was {}", mad_before);

    let raw_outlier = 4.0;
    let cap = median_before + (8.0 * mad_before);
    assert!(raw_outlier > cap, "Raw outlier {} is not > cap {}", raw_outlier, cap);

    let expected_capped_value = cap;
    stats.update(fixed(raw_outlier), time + 10);

    // What is stored is capped.
    let last_val_in_bucket = float(*stats.current_bucket.values.last().unwrap());
    assert!((last_val_in_bucket - expected_capped_value).abs() < 1e-7);

    let difference = raw_outlier - last_val_in_bucket;
    assert!(
        difference > 0.1,
        "Numeric difference between signal and stats paths is {}",
        difference
    );
}

#[test]
fn test_threshold_math_happy_path() {
    let mut config = DynamicSpreadConfig::default();
    config.warmup_seconds = 10;
    config.minimum_samples = 5;
    config.k_entry = percent(3.0);
    config.k_exit = percent(1.0);
    config.minimum_entry_threshold_pct = percent(0.5);
    config.minimum_exit_threshold_pct = percent(0.1);
    config.maximum_exit_threshold_pct = percent(0.6);
    config.min_volatility_floor_pct = percent(0.01);

    let startup_time = 1000;
    let mut stats = RollingStats::new(config, startup_time);

    let mut time = startup_time;
    for &m in &[0.20, 0.22, 0.18, 0.20, 0.22, 0.18] {
        stats.update(fixed(m), time);
        time += 30000;
    }

    assert!(stats.sample_count >= 5);
    assert!(time >= startup_time + 10000);

    let volatility = float(stats.get_spread_volatility());
    assert!(volatility >= 0.01);

    let entry = float(stats.get_entry_threshold(time).unwrap());
    let exit = float(stats.get_exit_threshold(time).unwrap());

    let expected_dynamic_entry = float(stats.rolling_median) + 3.0 * volatility;
    assert!((entry - expected_dynamic_entry.max(0.5)).abs() < 1e-7);

    let expected_dynamic_exit = float(stats.rolling_median) + 1.0 * volatility;
    let expected_clamped_exit = expected_dynamic_exit.clamp(0.1, 0.6);
    assert!((exit - expected_clamped_exit).abs() < 1e-7);
}

#[test]
fn test_threshold_math_volatility_floor_rejection() {
    let mut config = DynamicSpreadConfig::default();
    config.warmup_seconds = 10;
    config.minimum_samples = 5;
    config.min_volatility_floor_pct = percent(1.0);

    let startup_time = 1000;
    let mut stats = RollingStats::new(config, startup_time);

    let mut time = startup_time;
    for _ in 0..6 {
        stats.update(fixed(0.20), time);
        time += 30000;
    }

    assert_eq!(stats.get_spread_volatility(), fixed(0.0));

    // No volatility is below the floor.
    assert_eq!(stats.get_entry_threshold(time), None);
    assert_eq!(stats.get_exit_threshold(time), None);
    assert!(stats.can_trade(time).is_err());
}

#[test]
fn test_threshold_math_minimum_entry_floor() {
    let mut config = DynamicSpreadConfig::default();
    config.warmup_seconds = 10;
    config.minimum_samples = 5;
    config.k_entry = percent(3.0);
    config.minimum_entry_threshold_pct = percent(10.0);
    config.min_volatility_floor_pct = percent(0.01);

    let startup_time = 1000;
    let mut stats = RollingStats::new(config, startup_time);

    let mut time = startup_time;
    for &m in &[0.20, 0.21, 0.19, 0.20, 0.21, 0.19] {
        stats.update(fixed(m), time);
        time += 30000;
    }

    let entry = stats.get_entry_threshold(time).unwrap();
    assert_eq!(entry, fixed(10.0));
}

#[test]
fn test_threshold_math_exit_clamps() {
    let mut config = DynamicSpreadConfig::default();
    config.warmup_seconds = 10;
    config.minimum_samples = 5;
    config.min_volatility_floor_pct = percent(0.01);

    let startup_time = 1000;
    let mut stats = RollingStats::new(config.clone(), startup_time);

    let mut time = startup_time;
    for &m in &[0.20, 0.21, 0.19, 0.20, 0.21, 0.19] {
        stats.update(fixed(m), time);
        time += 30000;
    }

    // The dynamic exit is above the maximum.
    stats.config.maximum_exit_threshold_pct = percent(0.1);
    stats.config.minimum_exit_threshold_pct = percent(0.05);
    assert_eq!(stats.get_exit_threshold(time).unwrap(), fixed(0.1));

    // The dynamic exit is below the minimum.
    stats.config.maximum_exit_threshold_pct = percent(0.5);
    stats.config.minimum_exit_threshold_pct = percent(0.4);
    assert_eq!(stats.get_exit_threshold(time).unwrap(), fixed(0.4));
}

#[test]
fn test_spread_velocity_calculation() {
    let mut config = DynamicSpreadConfig::default();
    config.velocity_window_ms = 400;
    let mut stats = RollingStats::new(config, 0);

    stats.update(fixed(1.0), 1000);

    // The nearest sample is too far from the lookback target.
    stats.update(fixed(1.2), 1200);
    assert_eq!(stats.spread_velocity, fixed(0.0));

    // From 1.0 to 1.8 in 0.4 seconds.
    stats.update(fixed(1.8), 1400);
    assert!((float(stats.spread_velocity) - 2.0).abs() < 1e-7);

    // From 1.8 to 1.6 in 0.4 seconds.
    stats.update(fixed(1.6), 1800);
    assert!((float(stats.spread_velocity) - -0.5).abs() < 1e-7);
}

#[test]
fn test_evaluate_entry() {
    let mut config = DynamicSpreadConfig::default();
    config.warmup_seconds = 10;
    config.minimum_samples = 5;
    config.k_entry = percent(3.0);
    config.minimum_entry_threshold_pct = percent(0.5);
    config.min_volatility_floor_pct = percent(0.01);
    config.velocity_window_ms = 400;
    config.max_slippage_pct = percent(0.35);

    let startup_time = 1000;
    let mut stats = RollingStats::new(config, startup_time);

    let mut time = startup_time;
    for &m in &[0.20, 0.22, 0.18, 0.20, 0.22, 0.18] {
        stats.update(fixed(m), time);
        time += 30000;
    }

    let _threshold = stats.get_entry_threshold(time).unwrap();

    // Below the threshold.
    stats.update(fixed(0.40), time);
    assert!(stats.evaluate_entry(fixed(0.40), time).is_err());

    time += 400;

    // Too far above the threshold.
    stats.update(fixed(0.95), time);
    assert!(
        stats.evaluate_entry(fixed(0.95), time).is_err(),
        "Should fail max slippage"
    );

    time += 400;

    // Falling from 0.95 to 0.60.
    stats.update(fixed(0.60), time);
    assert!(
        stats.evaluate_entry(fixed(0.60), time).is_err(),
        "Should fail negative velocity"
    );

    time += 400;

    // Rising, above the threshold and within the slippage.
    stats.update(fixed(0.70), time);
    let velocity = stats.spread_velocity;
    assert!(velocity > 0);
    let current = fixed(0.70);
    let entry_th = stats.get_entry_threshold(time).unwrap();
    assert!(current > entry_th);
    assert!(current - entry_th < fixed(0.35));

    assert!(
        stats.evaluate_entry(fixed(0.70), time).is_ok(),
        "Should pass all conditions"
    );
}

#[test]
fn test_evaluate_exit_conditions() {
    let mut config = DynamicSpreadConfig::default();
    config.warmup_seconds = 10;
    config.minimum_samples = 5;
    config.k_exit = percent(1.0);
    config.minimum_exit_threshold_pct = percent(0.1);
    config.maximum_exit_threshold_pct = percent(0.5);
    config.max_arbitrage_hold_time_ms = 60 * 60 * 1000;
    config.min_volatility_floor_pct = percent(0.01);

    let startup_time = 10_000_000;
    let mut stats = RollingStats::new(config, startup_time);

    let mut time = startup_time;
    for &m in &[0.30, 0.32, 0.28, 0.30, 0.32, 0.28] {
        stats.update(fixed(m), time);
        time += 30000;
    }

    let dynamic_exit = stats.get_exit_threshold(time).unwrap();
    assert!(dynamic_exit > fixed(0.1) && dynamic_exit < fixed(0.5));

    let open_time = time - 1000;

    assert_eq!(stats.evaluate_exit(fixed(0.40), time, open_time), false);
    assert_eq!(
        stats.evaluate_exit(dynamic_exit - fixed(0.01), time, open_time),
        true
    );
    assert_eq!(stats.evaluate_exit(fixed(0.05), time, open_time), true);

    let old_open_time = time - (61 * 60 * 1000);
    assert_eq!(stats.evaluate_exit(fixed(0.40), time, old_open_time), true);
}

#[test]
fn warmup_follows_history() {
    let mut config = DynamicSpreadConfig::default();
    config.minimum_samples = 1;
    config.warmup_seconds = 100;
    let mut stats = RollingStats::new(config, 0);
    assert_eq!(stats.can_trade(200_000), Err(RejectionReason::INSUFFICIENT_HISTORY));
    stats.update(fixed(0.2), 1000);
    stats.update(fixed(0.3), 40_000);
    stats.update(fixed(0.2), 80_000);
    assert_eq!(stats.can_trade(99_999), Err(RejectionReason::WARMUP));
}

#[test]
fn only_some_configurations_can_be_kept() {
    let mut config = DynamicSpreadConfig::default();
    assert!(is_config_fitting(&config));
    config.stats_bucket_seconds = 0;
    assert!(!is_config_fitting(&config));
    let mut config = DynamicSpreadConfig::default();
    config.k_entry = MULTIPLIER_LIMIT;
    assert!(is_config_fitting(&config));
    config.k_entry += 1;
    assert!(!is_config_fitting(&config));
    config.k_entry = 0;
    config.k_exit = -MULTIPLIER_LIMIT - 1;
    assert!(!is_config_fitting(&config));
}
