pub mod binance_api;
pub mod binance_feed;
pub mod binance_private_ws;
pub mod binance_trade_ws;
pub mod bybit_api;
pub mod bybit_feed;
pub mod bybit_private_ws;
pub mod exchange_info;
pub mod execution;
pub mod channel;
pub mod fill_channel;
pub mod session;
pub mod signing;
