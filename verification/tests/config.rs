use live_arb::config::{
    taker_fee, ConfigError, DynamicSpreadConfig, TradingParams, ENTRY_SPREAD_THRESHOLD,
    EXIT_SPREAD_THRESHOLD, MAX_OPEN_POSITIONS, MIN_HOLD_SECS, TRADE_COOLDOWN_SECS,
    TRADE_SIZE_USDT,
};
use live_arb::price_store::Exchange;

fn require_valid(config: &DynamicSpreadConfig) {
    if let Err(e) = config.validate() {
        panic!("{}", e.message());
    }
}

#[test]
fn test_dynamic_config_happy_path() {
    let config = DynamicSpreadConfig::default();
    require_valid(&config);
}

#[test]
#[should_panic(expected = "must be < k_entry")]
fn test_dynamic_config_k_exit_ge_k_entry() {
    let mut config = DynamicSpreadConfig::default();
    config.k_exit = 400_000_000;
    config.k_entry = 300_000_000;
    require_valid(&config);
}

#[test]
#[should_panic(expected = "must be > 0")]
fn test_dynamic_config_minimum_entry_threshold_pct_le_zero() {
    let mut config = DynamicSpreadConfig::default();
    config.minimum_entry_threshold_pct = 0;
    require_valid(&config);
}

#[test]
#[should_panic(expected = "must be <= max_signal_age_ms")]
fn test_dynamic_config_velocity_window_ms_gt_max_signal_age_ms() {
    let mut config = DynamicSpreadConfig::default();
    config.velocity_window_ms = 500;
    config.max_signal_age_ms = 400;
    require_valid(&config);
}

#[test]
#[should_panic(expected = "must be <= maximum_exit_threshold_pct")]
fn test_dynamic_config_min_exit_gt_max_exit() {
    let mut config = DynamicSpreadConfig::default();
    config.minimum_exit_threshold_pct = 60_000_000;
    config.maximum_exit_threshold_pct = 50_000_000;
    require_valid(&config);
}

#[test]
#[should_panic(expected = "must both be > 0")]
fn test_dynamic_config_minimum_samples_zero() {
    let mut config = DynamicSpreadConfig::default();
    config.minimum_samples = 0;
    require_valid(&config);
}

#[test]
#[should_panic(expected = "must both be > 0")]
fn test_dynamic_config_warmup_seconds_zero() {
    let mut config = DynamicSpreadConfig::default();
    config.warmup_seconds = 0;
    require_valid(&config);
}

#[test]
#[should_panic(expected = "appears implausibly high")]
fn test_dynamic_config_plausibility_slippage() {
    let mut config = DynamicSpreadConfig::default();
    config.max_slippage_pct = 600_000_000;
    require_valid(&config);
}

#[test]
fn errors_carry_the_offending_values() {
    let mut config = DynamicSpreadConfig::default();
    config.k_exit = config.k_entry;
    assert!(matches!(config.validate(), Err(ConfigError::ExitMultiplier { .. })));

    let mut config = DynamicSpreadConfig::default();
    config.minimum_exit_threshold_pct = 500_000_000;
    config.maximum_exit_threshold_pct = 500_000_000;
    assert!(matches!(
        config.validate(),
        Err(ConfigError::ExitUnit { minimum_exit_threshold_pct: 500_000_000 })
    ));

    let mut config = DynamicSpreadConfig::default();
    config.max_slippage_pct = 500_000_000;
    let error = config.validate().unwrap_err();
    assert_eq!(
        error.message(),
        "Configuration Error: max_slippage_pct (5) appears implausibly high (>= 5.0%). Expected unit convention is 1.0 = 1.0%."
    );
}

#[test]
fn first_broken_rule_is_reported() {
    let mut config = DynamicSpreadConfig::default();
    config.k_exit = config.k_entry;
    config.minimum_entry_threshold_pct = 0;
    config.warmup_seconds = 0;
    assert!(matches!(config.validate(), Err(ConfigError::ExitMultiplier { .. })));
}

#[test]
fn fees_are_fractions() {
    assert_eq!(taker_fee(Exchange::Binance), 50_000);
    assert_eq!(taker_fee(Exchange::Bybit), 55_000);
}

#[test]
fn documented_defaults() {
    assert_eq!(TRADE_SIZE_USDT, 2_000_000_000);
    assert_eq!(ENTRY_SPREAD_THRESHOLD, 100_000_000);
    assert_eq!(EXIT_SPREAD_THRESHOLD, 30_000_000);
    assert_eq!(TRADE_COOLDOWN_SECS, 30);
    assert_eq!(MIN_HOLD_SECS, 30);
    assert_eq!(MAX_OPEN_POSITIONS, 5);
    let params = TradingParams::default();
    assert!(params.is_valid());
    assert_eq!(params.trade_size_usdt, TRADE_SIZE_USDT);
    assert_eq!(params.max_open_positions, 5);
}
