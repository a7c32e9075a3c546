//! Configuration records the front end hands to the engine factory.
//!
//! Strategy and risk figures arrive from the configuration file in
//! decimal form and are converted to fixed-point at the boundary; the
//! records here carry only what the core reads.

use vstd::prelude::*;

verus! {

/// What to trade.
#[derive(Debug, Clone)]
pub struct TradingConfig {
    pub symbol: String,
    pub base_asset: String,
    pub quote_asset: String,
    pub paper_trading: bool,
}

impl Default for TradingConfig {
    /// Paper trading on the major pair.
    fn default() -> (r: TradingConfig)
        ensures
            r.symbol@ == "BTCUSDT"@,
            r.paper_trading,
    {
        TradingConfig {
            symbol: "BTCUSDT".to_owned(),
            base_asset: "BTC".to_owned(),
            quote_asset: "USDT".to_owned(),
            paper_trading: true,
        }
    }
}

/// Where to reach the venue.
#[derive(Debug, Clone)]
pub struct ExchangeConfigFile {
    pub name: String,
    pub rest_url: String,
    pub ws_url: String,
    pub api_key: String,
    pub api_secret: String,
    pub passphrase: Option<String>,
    pub connect_timeout_ms: u64,
    pub max_requests_per_second: u32,
}

impl Default for ExchangeConfigFile {
    /// The spot testnet without credentials.
    fn default() -> (r: ExchangeConfigFile)
        ensures
            r.name@ == "binance"@,
            r.connect_timeout_ms == 5000,
            r.max_requests_per_second == 10,
    {
        ExchangeConfigFile {
            name: "binance".to_owned(),
            rest_url: "https://testnet.binance.vision".to_owned(),
            ws_url: "wss://testnet.binance.vision/ws".to_owned(),
            api_key: String::new(),
            api_secret: String::new(),
            passphrase: None,
            connect_timeout_ms: 5000,
            max_requests_per_second: 10,
        }
    }
}

/// Logging and buffering knobs.
#[derive(Debug, Clone)]
pub struct SystemConfig {
    pub log_level: String,
    pub log_dir: String,
    pub log_to_console: bool,
    pub log_to_file: bool,
    pub tick_buffer_size: usize,
}

impl Default for SystemConfig {
    /// Console logging at the informational level.
    fn default() -> (r: SystemConfig)
        ensures
            r.log_level@ == "INFO"@,
            r.log_to_console,
            !r.log_to_file,
            r.tick_buffer_size == 65536,
    {
        SystemConfig {
            log_level: "INFO".to_owned(),
            log_dir: "./logs".to_owned(),
            log_to_console: true,
            log_to_file: false,
            tick_buffer_size: 65536,
        }
    }
}

} // verus!
