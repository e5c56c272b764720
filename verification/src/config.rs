//! Trading parameters: the fixed limits of the engine and the settings of the
//! dynamic spread thresholds. Amounts and percentages count hundred-millionths;
//! a percentage of one percent is `SCALE`.
use crate::price_store::Exchange;
use crate::text::{plain_text, push_nat, push_plain};
use crate::fixed::{MAX_AMOUNT, SCALE};
use vstd::prelude::*;

verus! {

/// Target trade size in USDT per leg. The actual size may be reduced by the
/// balances and by the depth of the books.
pub const TRADE_SIZE_USDT: u64 = 2_000_000_000;

/// Leverage used on both exchanges for all trades.
pub const FIXED_LEVERAGE: u32 = 10;

/// Minimum USDT balance on each exchange. Below it, trades are skipped.
pub const MIN_BALANCE_USDT: i64 = 100_000_000;

/// Minimum spread % to open a position.
pub const ENTRY_SPREAD_THRESHOLD: i64 = 100_000_000;

/// Largest spread % that is believed. A larger one is a ticker collision or a
/// delisting anomaly.
pub const MAX_SPREAD_THRESHOLD: i64 = 1_000_000_000;

/// Order book age in milliseconds beyond which a quote is stale.
pub const MAX_BOOK_AGE_MILLIS: u128 = 2000;

/// Largest acceptable slippage % between the quoted and the executed price.
pub const MAX_ALLOWED_SLIPPAGE_PCT: i64 = 35_000_000;

/// Spread % at which an open position is closed.
pub const EXIT_SPREAD_THRESHOLD: i64 = 30_000_000;

/// Seconds between two trades on the same coin.
pub const TRADE_COOLDOWN_SECS: i64 = 30;

/// Seconds that a position is held before a converged spread may close it.
pub const MIN_HOLD_SECS: i64 = 30;

/// Seconds after which a position is closed by force.
pub const MAX_HOLD_SECS: i64 = 10;

/// Maximum number of positions open at the same time.
pub const MAX_OPEN_POSITIONS: usize = 5;

/// Minutes before and after a funding time during which a coin is paused.
pub const FUNDING_PAUSE_MINUTES: i64 = 5;

/// Whether coins with a one-hour funding interval are left alone.
pub const SKIP_1H_FUNDING_COINS: bool = true;

/// Path of the trade journal.
pub const LIVE_TRADES_LOG_PATH: &'static str = "d:\\Arbitrage\\live_trades.jsonl";

/// Path of the missed trades log (text).
pub const MISSED_TRADES_LOG_PATH: &'static str = "missed_trades.log";

/// Path of the missed trades log (one JSON object per line).
pub const MISSED_TRADES_JSONL_PATH: &'static str = "missed_trades.jsonl";

/// Taker fee rate of an exchange: 0.05% on Binance, 0.055% on Bybit.
pub open spec fn taker_fee_spec(exchange: Exchange) -> int {
    match exchange {
        Exchange::Binance => 50_000,
        Exchange::Bybit => 55_000,
    }
}

/// Taker fee rate of an exchange (VIP-0, market order).
pub fn taker_fee(exchange: Exchange) -> (rate: i64)
    ensures
        rate == taker_fee_spec(exchange),
{
    match exchange {
        Exchange::Binance => 50_000,
        Exchange::Bybit => 55_000,
    }
}

/// The limits of the trading engine that an operator tunes.
#[derive(Debug, Clone, Copy)]
pub struct TradingParams {
    /// Target trade size in USDT per leg.
    pub trade_size_usdt: u64,
    /// Minimum spread % to open a position.
    pub entry_spread_threshold: i64,
    /// Spread % that is expected to remain when a position is closed.
    pub exit_spread_threshold: i64,
    /// Seconds between two trades on the same coin.
    pub trade_cooldown_secs: i64,
    /// Seconds that a position is held before a converged spread may close it.
    pub min_hold_secs: i64,
    /// Maximum number of positions open at the same time.
    pub max_open_positions: usize,
}

impl TradingParams {
    /// Whether the amounts and times are in range and the percentages lie
    /// between zero and one hundred.
    pub open spec fn wf(&self) -> bool {
        &&& self.trade_size_usdt <= MAX_AMOUNT
        &&& 0 <= self.entry_spread_threshold <= 100 * SCALE
        &&& 0 <= self.exit_spread_threshold <= 100 * SCALE
        &&& 0 <= self.trade_cooldown_secs <= 1_000_000_000
    }

    /// Whether the amounts and times are in range and the percentages lie
    /// between zero and one hundred.
    pub fn is_valid(&self) -> (r: bool)
        ensures
            r == self.wf(),
    {
        self.trade_size_usdt <= MAX_AMOUNT && 0 <= self.entry_spread_threshold
            && self.entry_spread_threshold <= 100 * SCALE && 0 <= self.exit_spread_threshold
            && self.exit_spread_threshold <= 100 * SCALE && 0 <= self.trade_cooldown_secs
            && self.trade_cooldown_secs <= 1_000_000_000
    }
}

impl Default for TradingParams {
    /// The parameters that the constants of this module set: 20 USDT per leg,
    /// entry at 1.0%, exit at 0.3%, 30 seconds of cooldown and of minimum
    /// holding, five positions.
    fn default() -> (p: TradingParams)
        ensures
            p.wf(),
            p == (TradingParams {
                trade_size_usdt: TRADE_SIZE_USDT,
                entry_spread_threshold: ENTRY_SPREAD_THRESHOLD,
                exit_spread_threshold: EXIT_SPREAD_THRESHOLD,
                trade_cooldown_secs: TRADE_COOLDOWN_SECS,
                min_hold_secs: MIN_HOLD_SECS,
                max_open_positions: MAX_OPEN_POSITIONS,
            }),
    {
        TradingParams {
            trade_size_usdt: TRADE_SIZE_USDT,
            entry_spread_threshold: ENTRY_SPREAD_THRESHOLD,
            exit_spread_threshold: EXIT_SPREAD_THRESHOLD,
            trade_cooldown_secs: TRADE_COOLDOWN_SECS,
            min_hold_secs: MIN_HOLD_SECS,
            max_open_positions: MAX_OPEN_POSITIONS,
        }
    }
}

/// Settings of the dynamic spread thresholds.
#[derive(Debug, Clone, Copy)]
pub struct DynamicSpreadConfig {
    /// Warmup time in seconds before trading is allowed.
    pub warmup_seconds: u64,
    /// Minimum number of samples before trading is allowed.
    pub minimum_samples: usize,
    /// Rolling window in seconds for the median and the MAD.
    pub stats_window_seconds: u64,
    /// Bucket size in seconds for the rolling window.
    pub stats_bucket_seconds: u64,
    /// Entry multiplier for spread volatility.
    pub k_entry: i64,
    /// Exit multiplier for spread volatility (below `k_entry`).
    pub k_exit: i64,
    /// Minimum entry threshold in percent.
    pub minimum_entry_threshold_pct: i64,
    /// Minimum exit threshold in percent.
    pub minimum_exit_threshold_pct: i64,
    /// Maximum exit threshold in percent.
    pub maximum_exit_threshold_pct: i64,
    /// Minimum z-score for entry.
    pub minimum_entry_z_score: i64,
    /// Volatility floor in percent.
    pub min_volatility_floor_pct: i64,
    /// Minimum net edge in percent.
    pub minimum_net_edge_pct: i64,
    /// Base safety buffer in percent.
    pub base_safety_buffer_pct: i64,
    /// Maximum safety buffer in percent.
    pub max_safety_buffer_pct: i64,
    /// Maximum age of a signal in milliseconds.
    pub max_signal_age_ms: u64,
    /// Window of the velocity calculation in milliseconds (at most `max_signal_age_ms`).
    pub velocity_window_ms: u64,
    /// Depth of crossing history to retain.
    pub crossing_history_depth: usize,
    /// Multiplier of the winsorization cap.
    pub outlier_cap_multiplier: i64,
    /// Maximum age of market data in milliseconds.
    pub max_data_age_ms: u64,
    /// Maximum hold time in milliseconds.
    pub max_arbitrage_hold_time_ms: u64,
    /// Maximum slippage in percent.
    pub max_slippage_pct: i64,
    /// Maximum number of order book levels to walk.
    pub max_depth_levels: usize,
    /// Minimum liquidity.
    pub minimum_liquidity: i64,
    /// Cooldown between trades in milliseconds.
    pub cooldown_ms: u64,
    /// Spread collapse rate in percent per second.
    pub collapse_rate_threshold_pct_per_sec: i64,
}

impl Default for DynamicSpreadConfig {
    fn default() -> (c: DynamicSpreadConfig)
        ensures
            c == default_config(),
    {
        DynamicSpreadConfig {
            warmup_seconds: 45,
            minimum_samples: 60,
            stats_window_seconds: 14400,
            stats_bucket_seconds: 30,
            k_entry: 300_000_000,
            k_exit: 100_000_000,
            minimum_entry_threshold_pct: 60_000_000,
            minimum_exit_threshold_pct: 10_000_000,
            maximum_exit_threshold_pct: 50_000_000,
            minimum_entry_z_score: 300_000_000,
            min_volatility_floor_pct: 500_000,
            minimum_net_edge_pct: 25_000_000,
            base_safety_buffer_pct: 5_000_000,
            max_safety_buffer_pct: 25_000_000,
            max_signal_age_ms: 400,
            velocity_window_ms: 400,
            crossing_history_depth: 5,
            outlier_cap_multiplier: 800_000_000,
            max_data_age_ms: 2000,
            max_arbitrage_hold_time_ms: 600000,
            max_slippage_pct: 35_000_000,
            max_depth_levels: 10,
            minimum_liquidity: 10_000_000_000,
            cooldown_ms: 5000,
            collapse_rate_threshold_pct_per_sec: 10_000_000,
        }
    }
}

/// The settings that hold unless an operator changes them.
pub open spec fn default_config() -> DynamicSpreadConfig {
    DynamicSpreadConfig {
        warmup_seconds: 45,
        minimum_samples: 60,
        stats_window_seconds: 14400,
        stats_bucket_seconds: 30,
        k_entry: 300_000_000,
        k_exit: 100_000_000,
        minimum_entry_threshold_pct: 60_000_000,
        minimum_exit_threshold_pct: 10_000_000,
        maximum_exit_threshold_pct: 50_000_000,
        minimum_entry_z_score: 300_000_000,
        min_volatility_floor_pct: 500_000,
        minimum_net_edge_pct: 25_000_000,
        base_safety_buffer_pct: 5_000_000,
        max_safety_buffer_pct: 25_000_000,
        max_signal_age_ms: 400,
        velocity_window_ms: 400,
        crossing_history_depth: 5,
        outlier_cap_multiplier: 800_000_000,
        max_data_age_ms: 2000,
        max_arbitrage_hold_time_ms: 600000,
        max_slippage_pct: 35_000_000,
        max_depth_levels: 10,
        minimum_liquidity: 10_000_000_000,
        cooldown_ms: 5000,
        collapse_rate_threshold_pct_per_sec: 10_000_000,
    }
}

/// What is wrong with a configuration.
#[derive(Debug, Clone, Copy, PartialEq, Eq, Structural)]
pub enum ConfigError {
    ExitMultiplier { k_exit: i64, k_entry: i64 },
    EntryThreshold { minimum_entry_threshold_pct: i64 },
    VelocityWindow { velocity_window_ms: u64, max_signal_age_ms: u64 },
    ExitRange { minimum_exit_threshold_pct: i64, maximum_exit_threshold_pct: i64 },
    NoWarmup { minimum_samples: usize, warmup_seconds: u64 },
    FeeUnit { fee_pct: i64 },
    SlippageUnit { max_slippage_pct: i64 },
    ExitUnit { minimum_exit_threshold_pct: i64 },
}

impl ConfigError {
    /// The message that names the offending settings.
    pub open spec fn message_spec(self) -> Seq<char> {
        match self {
            ConfigError::ExitMultiplier { k_exit, k_entry } => "Configuration Error: k_exit ("@
                + plain_text(k_exit as int) + ") must be < k_entry ("@ + plain_text(k_entry as int)
                + ")"@,
            ConfigError::EntryThreshold { minimum_entry_threshold_pct } =>
                "Configuration Error: minimum_entry_threshold_pct ("@ + plain_text(
                minimum_entry_threshold_pct as int,
            ) + ") must be > 0"@,
            ConfigError::VelocityWindow { velocity_window_ms, max_signal_age_ms } =>
                "Configuration Error: velocity_window_ms ("@ + crate::text::nat_text(
                velocity_window_ms as nat,
            ) + ") must be <= max_signal_age_ms ("@ + crate::text::nat_text(
                max_signal_age_ms as nat,
            ) + ")"@,
            ConfigError::ExitRange { minimum_exit_threshold_pct, maximum_exit_threshold_pct } =>
                "Configuration Error: minimum_exit_threshold_pct ("@ + plain_text(
                minimum_exit_threshold_pct as int,
            ) + ") must be <= maximum_exit_threshold_pct ("@ + plain_text(
                maximum_exit_threshold_pct as int,
            ) + ")"@,
            ConfigError::NoWarmup { minimum_samples, warmup_seconds } =>
                "Configuration Error: minimum_samples ("@ + crate::text::nat_text(
                minimum_samples as nat,
            ) + ") and warmup_seconds ("@ + crate::text::nat_text(warmup_seconds as nat)
                + ") must both be > 0"@,
            ConfigError::FeeUnit { fee_pct } =>
                "Configuration Error: Binance fee appears to be >= 2.0% ("@ + plain_text(
                fee_pct as int,
            ) + "%). Verify unit convention (1.0 = 1.0%)."@,
            ConfigError::SlippageUnit { max_slippage_pct } =>
                "Configuration Error: max_slippage_pct ("@ + plain_text(max_slippage_pct as int)
                + ") appears implausibly high (>= 5.0%). Expected unit convention is 1.0 = 1.0%."@,
            ConfigError::ExitUnit { minimum_exit_threshold_pct } =>
                "Configuration Error: minimum_exit_threshold_pct ("@ + plain_text(
                minimum_exit_threshold_pct as int,
            ) + ") appears implausibly high (>= 5.0%). Expected unit convention is 1.0 = 1.0%."@,
        }
    }

    /// The message that names the offending settings.
    pub fn message(&self) -> (s: String)
        ensures
            s@ == self.message_spec(),
    {
        let mut out;
        match *self {
            ConfigError::ExitMultiplier { k_exit, k_entry } => {
                out = "Configuration Error: k_exit (".to_owned();
                push_plain(&mut out, k_exit as i128);
                out.append(") must be < k_entry (");
                push_plain(&mut out, k_entry as i128);
                out.append(")");
            },
            ConfigError::EntryThreshold { minimum_entry_threshold_pct } => {
                out = "Configuration Error: minimum_entry_threshold_pct (".to_owned();
                push_plain(&mut out, minimum_entry_threshold_pct as i128);
                out.append(") must be > 0");
            },
            ConfigError::VelocityWindow { velocity_window_ms, max_signal_age_ms } => {
                out = "Configuration Error: velocity_window_ms (".to_owned();
                push_nat(&mut out, velocity_window_ms as u128);
                out.append(") must be <= max_signal_age_ms (");
                push_nat(&mut out, max_signal_age_ms as u128);
                out.append(")");
            },
            ConfigError::ExitRange { minimum_exit_threshold_pct, maximum_exit_threshold_pct } => {
                out = "Configuration Error: minimum_exit_threshold_pct (".to_owned();
                push_plain(&mut out, minimum_exit_threshold_pct as i128);
                out.append(") must be <= maximum_exit_threshold_pct (");
                push_plain(&mut out, maximum_exit_threshold_pct as i128);
                out.append(")");
            },
            ConfigError::NoWarmup { minimum_samples, warmup_seconds } => {
                out = "Configuration Error: minimum_samples (".to_owned();
                push_nat(&mut out, minimum_samples as u128);
                out.append(") and warmup_seconds (");
                push_nat(&mut out, warmup_seconds as u128);
                out.append(") must both be > 0");
            },
            ConfigError::FeeUnit { fee_pct } => {
                out = "Configuration Error: Binance fee appears to be >= 2.0% (".to_owned();
                push_plain(&mut out, fee_pct as i128);
                out.append("%). Verify unit convention (1.0 = 1.0%).");
            },
            ConfigError::SlippageUnit { max_slippage_pct } => {
                out = "Configuration Error: max_slippage_pct (".to_owned();
                push_plain(&mut out, max_slippage_pct as i128);
                out.append(
                    ") appears implausibly high (>= 5.0%). Expected unit convention is 1.0 = 1.0%.",
                );
            },
            ConfigError::ExitUnit { minimum_exit_threshold_pct } => {
                out = "Configuration Error: minimum_exit_threshold_pct (".to_owned();
                push_plain(&mut out, minimum_exit_threshold_pct as i128);
                out.append(
                    ") appears implausibly high (>= 5.0%). Expected unit convention is 1.0 = 1.0%.",
                );
            },
        }
        out
    }
}

impl DynamicSpreadConfig {
    /// The first setting that breaks an invariant, in the order in which they
    /// are looked at.
    pub open spec fn check_spec(&self) -> Result<(), ConfigError> {
        let fee_pct = taker_fee_spec(Exchange::Binance) * 100;
        if self.k_exit >= self.k_entry {
            Err(ConfigError::ExitMultiplier { k_exit: self.k_exit, k_entry: self.k_entry })
        } else if self.minimum_entry_threshold_pct <= 0 {
            Err(
                ConfigError::EntryThreshold {
                    minimum_entry_threshold_pct: self.minimum_entry_threshold_pct,
                },
            )
        } else if self.velocity_window_ms > self.max_signal_age_ms {
            Err(
                ConfigError::VelocityWindow {
                    velocity_window_ms: self.velocity_window_ms,
                    max_signal_age_ms: self.max_signal_age_ms,
                },
            )
        } else if self.minimum_exit_threshold_pct > self.maximum_exit_threshold_pct {
            Err(
                ConfigError::ExitRange {
                    minimum_exit_threshold_pct: self.minimum_exit_threshold_pct,
                    maximum_exit_threshold_pct: self.maximum_exit_threshold_pct,
                },
            )
        } else if self.minimum_samples == 0 || self.warmup_seconds == 0 {
            Err(
                ConfigError::NoWarmup {
                    minimum_samples: self.minimum_samples,
                    warmup_seconds: self.warmup_seconds,
                },
            )
        } else if fee_pct >= 2 * SCALE {
            Err(ConfigError::FeeUnit { fee_pct: fee_pct as i64 })
        } else if self.max_slippage_pct >= 5 * SCALE {
            Err(ConfigError::SlippageUnit { max_slippage_pct: self.max_slippage_pct })
        } else if self.minimum_exit_threshold_pct >= 5 * SCALE {
            Err(
                ConfigError::ExitUnit {
                    minimum_exit_threshold_pct: self.minimum_exit_threshold_pct,
                },
            )
        } else {
            Ok(())
        }
    }

    /// Load-time validation of the configuration invariants.
    pub fn validate(&self) -> (r: Result<(), ConfigError>)
        ensures
            r == self.check_spec(),
    {
        if self.k_exit >= self.k_entry {
            return Err(ConfigError::ExitMultiplier { k_exit: self.k_exit, k_entry: self.k_entry });
        }
        if self.minimum_entry_threshold_pct <= 0 {
            return Err(
                ConfigError::EntryThreshold {
                    minimum_entry_threshold_pct: self.minimum_entry_threshold_pct,
                },
            );
        }
        if self.velocity_window_ms > self.max_signal_age_ms {
            return Err(
                ConfigError::VelocityWindow {
                    velocity_window_ms: self.velocity_window_ms,
                    max_signal_age_ms: self.max_signal_age_ms,
                },
            );
        }
        if self.minimum_exit_threshold_pct > self.maximum_exit_threshold_pct {
            return Err(
                ConfigError::ExitRange {
                    minimum_exit_threshold_pct: self.minimum_exit_threshold_pct,
                    maximum_exit_threshold_pct: self.maximum_exit_threshold_pct,
                },
            );
        }
        if self.minimum_samples == 0 || self.warmup_seconds == 0 {
            return Err(
                ConfigError::NoWarmup {
                    minimum_samples: self.minimum_samples,
                    warmup_seconds: self.warmup_seconds,
                },
            );
        }
        let fee_pct: i64 = taker_fee(Exchange::Binance) * 100;
        if fee_pct >= 2 * SCALE {
            return Err(ConfigError::FeeUnit { fee_pct });
        }
        if self.max_slippage_pct >= 5 * SCALE {
            return Err(ConfigError::SlippageUnit { max_slippage_pct: self.max_slippage_pct });
        }
        if self.minimum_exit_threshold_pct >= 5 * SCALE {
            return Err(
                ConfigError::ExitUnit {
                    minimum_exit_threshold_pct: self.minimum_exit_threshold_pct,
                },
            );
        }
        Ok(())
    }
}

/// The configuration invariants: a configuration passes exactly when the exit
/// multiplier lies below the entry multiplier, the entry threshold is positive,
/// the velocity window fits in the signal age, the exit range is not empty, a
/// warmup is asked for, and no percentage looks like a wrong unit.
pub proof fn law_config_invariants(config: DynamicSpreadConfig)
    ensures
        config.check_spec() is Ok <==> {
            &&& config.k_exit < config.k_entry
            &&& config.minimum_entry_threshold_pct > 0
            &&& config.velocity_window_ms <= config.max_signal_age_ms
            &&& config.minimum_exit_threshold_pct <= config.maximum_exit_threshold_pct
            &&& config.minimum_samples > 0
            &&& config.warmup_seconds > 0
            &&& config.max_slippage_pct < 5 * SCALE
            &&& config.minimum_exit_threshold_pct < 5 * SCALE
        },
        default_config().check_spec() is Ok,
{
}

} // verus!
