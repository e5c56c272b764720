//! Arbitrage between the perpetual futures of two exchanges. Amounts, prices and
//! percentages are integers that count hundred-millionths.
pub mod alerting;
pub mod clock;
pub mod config;
pub mod env_file;
pub mod exchanges;
pub mod fixed;
pub mod funding;
pub mod json;
pub mod laws;
pub mod latency;
pub mod live_trading;
pub mod metrics;
pub mod missed_trade_logger;
pub mod opportunity_logger;
pub mod position_sync;
pub mod price_store;
pub mod rejection;
pub mod renderer;
pub mod stats;
pub mod summary;
pub mod text;
pub mod trade_journal;
pub mod wide;
