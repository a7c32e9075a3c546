//! What the venue adapters and the core agree on: configuration, request
//! and response shapes, request signing, and order routing.
//!
//! The transport itself (WebSocket framing, REST calls) lives outside this
//! library; only the signing of a query string, which is pure, and the
//! routing decision over quotes are logic of the core.

use vstd::prelude::*;

use crate::types::{ExchangeId, ExchangeQuote, OrderId, OrderStatus, OrderType, Price, Quantity,
    Side, Symbol, TimeInForce, Timestamp};

verus! {

/// Faults a venue adapter can report.
#[derive(Debug, Clone)]
pub enum ExchangeError {
    ConnectionFailed(String),
    AuthenticationFailed(String),
    RequestFailed(String),
    RateLimitExceeded,
    OrderRejected(String),
    ParseError(String),
    WebSocketError(String),
    NotConnected,
    Timeout,
}

/// Connection settings for one venue.
#[derive(Debug, Clone)]
pub struct ExchangeConfig {
    pub name: String,
    pub rest_url: String,
    pub ws_url: String,
    pub api_key: String,
    pub api_secret: String,
    pub passphrase: Option<String>,
    pub connect_timeout_ms: u64,
    pub read_timeout_ms: u64,
    pub max_requests_per_second: u32,
    pub testnet: bool,
}

impl Default for ExchangeConfig {
    /// The production endpoints with stock timeouts and no credentials.
    fn default() -> (r: ExchangeConfig)
        ensures
            r.name@ == "binance"@,
            r.api_key@.len() == 0,
            r.api_secret@.len() == 0,
            r.passphrase is None,
            r.connect_timeout_ms == 5000,
            r.read_timeout_ms == 1000,
            r.max_requests_per_second == 10,
            !r.testnet,
    {
        ExchangeConfig {
            name: "binance".to_owned(),
            rest_url: "https://api.binance.com".to_owned(),
            ws_url: "wss://stream.binance.com:9443/ws".to_owned(),
            api_key: String::new(),
            api_secret: String::new(),
            passphrase: None,
            connect_timeout_ms: 5000,
            read_timeout_ms: 1000,
            max_requests_per_second: 10,
            testnet: false,
        }
    }
}

/// An order as handed to a venue adapter.
#[derive(Debug, Clone)]
pub struct OrderRequest {
    pub symbol: Symbol,
    pub side: Side,
    pub order_type: OrderType,
    pub time_in_force: TimeInForce,
    pub price: Price,
    pub quantity: Quantity,
    pub client_order_id: Option<String>,
}

/// A venue's answer to an order.
#[derive(Debug, Clone)]
pub struct OrderResponse {
    pub success: bool,
    pub order_id: OrderId,
    pub client_order_id: String,
    pub status: OrderStatus,
    pub error_message: Option<String>,
}

/// A venue's answer to a cancel.
#[derive(Debug, Clone)]
pub struct CancelResponse {
    pub success: bool,
    pub order_id: OrderId,
    pub error_message: Option<String>,
}

/// Venue-specific settings for the primary exchange.
#[derive(Debug, Clone)]
pub struct BinanceConfig {
    pub base: ExchangeConfig,
    pub use_futures: bool,
    pub recv_window: u64,
}

impl Default for BinanceConfig {
    /// Spot endpoints, stock receive window.
    fn default() -> (r: BinanceConfig)
        ensures
            !r.use_futures,
            r.recv_window == 5000,
            !r.base.testnet,
    {
        BinanceConfig { base: ExchangeConfig::default(), use_futures: false, recv_window: 5000 }
    }
}

impl BinanceConfig {
    /// The spot testnet endpoints.
    pub fn testnet() -> (r: BinanceConfig)
        ensures
            r.base.testnet,
            !r.use_futures,
            r.recv_window == 5000,
            r.base.rest_url@ == "https://testnet.binance.vision"@,
            r.base.ws_url@ == "wss://testnet.binance.vision/ws"@,
    {
        let mut config = BinanceConfig::default();
        config.base.testnet = true;
        config.base.rest_url = "https://testnet.binance.vision".to_owned();
        config.base.ws_url = "wss://testnet.binance.vision/ws".to_owned();
        config
    }

    /// The futures testnet endpoints.
    pub fn futures_testnet() -> (r: BinanceConfig)
        ensures
            r.base.testnet,
            r.use_futures,
            r.recv_window == 5000,
            r.base.rest_url@ == "https://testnet.binancefuture.com"@,
            r.base.ws_url@ == "wss://stream.binancefuture.com/ws"@,
    {
        let mut config = BinanceConfig::testnet();
        config.use_futures = true;
        config.base.rest_url = "https://testnet.binancefuture.com".to_owned();
        config.base.ws_url = "wss://stream.binancefuture.com/ws".to_owned();
        config
    }
}

// ============================================================================
// Request signing
// ============================================================================

/// The HMAC-SHA256 tag of `msg` under `key`, written as lowercase
/// hexadecimal. A function of the two strings alone.
pub uninterp spec fn hmac_sha256_hex_of(key: Seq<char>, msg: Seq<char>) -> Seq<char>;

/// Relies on hmac's `Hmac<Sha256>` (RFC 2104 over SHA-256, accepting any
/// key length) and on hex::encode (two lowercase digits per byte): the
/// 32-byte tag comes back as 64 hexadecimal characters, a function of the
/// key and message alone.
#[verifier::external_body]
fn hmac_sha256_hex(key: &str, msg: &str) -> (r: String)
    ensures
        r@ == hmac_sha256_hex_of(key@, msg@),
        r@.len() == 64,
{
    let mut mac = <hmac::Hmac<sha2::Sha256> as hmac::digest::KeyInit>::new_from_slice(
        key.as_bytes(),
    ).expect("HMAC accepts keys of any length");
    hmac::Mac::update(&mut mac, msg.as_bytes());
    hex::encode(hmac::Mac::finalize(mac).into_bytes())
}

/// Authenticate a query string: the query with its HMAC-SHA256 tag under
/// the venue secret appended as the `signature` parameter.
pub fn signed_query(query: &str, api_secret: &str) -> (r: String)
    ensures
        r@ == query@ + "&signature="@ + hmac_sha256_hex_of(api_secret@, query@),
{
    let signature = hmac_sha256_hex(api_secret, query);
    let mut out = query.to_owned();
    out.append("&signature=");
    out.append(signature.as_str());
    out
}

/// A venue's millisecond timestamp as nanoseconds since the epoch.
pub fn wire_ms_to_ns(ms: u64) -> (r: Timestamp)
    requires
        ms <= 18_000_000_000_000,
    ensures
        r == ms * 1_000_000,
{
    ms * 1_000_000
}

// ============================================================================
// Order routing
// ============================================================================

/// The venue with the lowest ask among the given quotes; earlier quotes
/// win ties.
pub open spec fn spec_best_ask_venue(s: Seq<(ExchangeId, ExchangeQuote)>, n: int) -> Option<
    ExchangeId,
>
    decreases n,
{
    if n <= 0 || n > s.len() {
        None
    } else if n == 1 {
        Some(s[0].0)
    } else {
        let rest = spec_best_ask_venue(s, n - 1);
        if spec_best_ask_price(s, n - 1) <= s[n - 1].1.ask {
            rest
        } else {
            Some(s[n - 1].0)
        }
    }
}

/// The lowest ask among the first `n` quotes.
pub open spec fn spec_best_ask_price(s: Seq<(ExchangeId, ExchangeQuote)>, n: int) -> Price
    decreases n,
{
    if n <= 1 {
        s[0].1.ask
    } else if spec_best_ask_price(s, n - 1) <= s[n - 1].1.ask {
        spec_best_ask_price(s, n - 1)
    } else {
        s[n - 1].1.ask
    }
}

/// The venue with the highest bid among the given quotes; earlier quotes
/// win ties.
pub open spec fn spec_best_bid_venue(s: Seq<(ExchangeId, ExchangeQuote)>, n: int) -> Option<
    ExchangeId,
>
    decreases n,
{
    if n <= 0 || n > s.len() {
        None
    } else if n == 1 {
        Some(s[0].0)
    } else {
        let rest = spec_best_bid_venue(s, n - 1);
        if spec_best_bid_price(s, n - 1) >= s[n - 1].1.bid {
            rest
        } else {
            Some(s[n - 1].0)
        }
    }
}

/// The highest bid among the first `n` quotes.
pub open spec fn spec_best_bid_price(s: Seq<(ExchangeId, ExchangeQuote)>, n: int) -> Price
    decreases n,
{
    if n <= 1 {
        s[0].1.bid
    } else if spec_best_bid_price(s, n - 1) >= s[n - 1].1.bid {
        spec_best_bid_price(s, n - 1)
    } else {
        s[n - 1].1.bid
    }
}

/// Route an order to the venue with the best price for its side: the
/// lowest ask to buy at, the highest bid to sell at; earlier quotes win
/// ties, and no quotes means no venue.
pub fn select_exchange_for_order(side: Side, quotes: &Vec<(ExchangeId, ExchangeQuote)>) -> (r:
    Option<ExchangeId>)
    ensures
        (r is None) <==> quotes@.len() == 0,
        quotes@.len() > 0 ==> r == (match side {
            Side::Buy => spec_best_ask_venue(quotes@, quotes@.len() as int),
            Side::Sell => spec_best_bid_venue(quotes@, quotes@.len() as int),
        }),
{
    let n = quotes.len();
    if n == 0 {
        return None;
    }
    let mut best: usize = 0;
    let mut i: usize = 1;
    while i < n
        invariant
            n == quotes@.len(),
            1 <= i <= n,
            best < i,
            match side {
                Side::Buy => quotes@[best as int].1.ask == spec_best_ask_price(quotes@, i as int)
                    && Some(quotes@[best as int].0) == spec_best_ask_venue(quotes@, i as int),
                Side::Sell => quotes@[best as int].1.bid == spec_best_bid_price(quotes@, i as int)
                    && Some(quotes@[best as int].0) == spec_best_bid_venue(quotes@, i as int),
            },
        decreases n - i,
    {
        let better = match side {
            Side::Buy => quotes[i].1.ask < quotes[best].1.ask,
            Side::Sell => quotes[i].1.bid > quotes[best].1.bid,
        };
        if better {
            best = i;
        }
        i = i + 1;
    }
    Some(quotes[best].0)
}

} // verus!
