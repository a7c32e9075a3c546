//! Core market-data types: fixed-point aliases, sides, order lifecycle,
//! quotes, ticks, trades, and wall-clock readings.

use vstd::prelude::*;

verus! {

/// Price as a fixed-point integer (scale 10^8).
pub type Price = i64;

/// Quantity as a fixed-point integer (scale 10^8).
pub type Quantity = i64;

/// Order identifier.
pub type OrderId = u64;

/// Timestamp in nanoseconds since the Unix epoch.
pub type Timestamp = u64;

/// Sequence number for ordering events.
pub type SequenceNum = u64;

/// Largest magnitude admitted for a price or a quantity (10^9 units at
/// scale 10^8). Keeping prices and quantities inside this bound lets every
/// product of two of them, and modest sums of such products, fit in `i128`.
pub const VALUE_LIMIT: i64 = 100_000_000_000_000_000;

/// A price admitted by the book and the strategies: positive and bounded.
pub open spec fn valid_price(p: Price) -> bool {
    0 < p <= VALUE_LIMIT
}

/// A quantity admitted by the book and the strategies: positive and bounded.
pub open spec fn valid_qty(q: Quantity) -> bool {
    0 < q <= VALUE_LIMIT
}

/// A signed position magnitude admitted by the risk layer.
pub open spec fn valid_position(q: int) -> bool {
    -VALUE_LIMIT <= q <= VALUE_LIMIT
}

// ============================================================================
// Enums
// ============================================================================

/// Order side.
#[derive(Debug, Clone, Copy, PartialEq, Eq, Hash, Structural)]
pub enum Side {
    Buy,
    Sell,
}

impl Side {
    /// The other side of the market.
    pub fn opposite(&self) -> (r: Side)
        ensures
            r == (match *self {
                Side::Buy => Side::Sell,
                Side::Sell => Side::Buy,
            }),
    {
        match self {
            Side::Buy => Side::Sell,
            Side::Sell => Side::Buy,
        }
    }
}

/// Order type.
#[derive(Debug, Clone, Copy, PartialEq, Eq, Hash, Structural)]
pub enum OrderType {
    Limit,
    Market,
    LimitMaker,
    Ioc,
    Fok,
}

/// Order lifecycle status.
#[derive(Debug, Clone, Copy, PartialEq, Eq, Hash, Structural)]
pub enum OrderStatus {
    New,
    PartiallyFilled,
    Filled,
    Canceled,
    Rejected,
    Expired,
}

/// Time-in-force policy.
#[derive(Debug, Clone, Copy, PartialEq, Eq, Hash, Structural)]
pub enum TimeInForce {
    Gtc,
    Ioc,
    Fok,
    Gtx,
}

/// Venue identifier.
#[derive(Debug, Clone, Copy, PartialEq, Eq, Hash, Structural)]
pub enum ExchangeId {
    Unknown,
    Binance,
    Bybit,
    Okx,
    Coinbase,
    Kraken,
}

// ============================================================================
// Symbol
// ============================================================================

/// Trading-pair identifier, an opaque byte string such as "BTCUSDT".
#[derive(Debug, Clone, PartialEq, Eq, Hash)]
pub struct Symbol(pub String);

impl Symbol {
    /// Wrap a pair name.
    pub fn new(s: &str) -> (r: Symbol)
        ensures
            r.0@ == s@,
    {
        Symbol(s.to_owned())
    }

    /// The pair name as a string slice.
    pub fn as_str(&self) -> (r: &str)
        ensures
            r@ == self.0@,
    {
        self.0.as_str()
    }

    /// An owned copy of the symbol.
    pub fn duplicate(&self) -> (r: Symbol)
        ensures
            r == *self,
    {
        Symbol(self.0.clone())
    }
}

// ============================================================================
// Order
// ============================================================================

/// A limit or market order with its fill progress.
#[derive(Debug, Clone)]
pub struct Order {
    pub id: OrderId,
    pub client_id: OrderId,
    pub symbol: Symbol,
    pub venue: ExchangeId,
    pub side: Side,
    pub order_type: OrderType,
    pub time_in_force: TimeInForce,
    pub price: Price,
    pub quantity: Quantity,
    pub filled_qty: Quantity,
    pub status: OrderStatus,
    pub timestamp: Timestamp,
}

impl Order {
    /// Fill progress stays within the ordered quantity.
    pub open spec fn wf(&self) -> bool {
        0 <= self.filled_qty <= self.quantity <= VALUE_LIMIT
    }

    /// A fresh, unfilled order in state `New`. Its timestamp is read from
    /// the wall clock.
    pub fn new(symbol: Symbol, side: Side, order_type: OrderType, price: Price, quantity: Quantity)
        -> (r: Order)
        ensures
            r.id == 0,
            r.client_id == 0,
            r.symbol == symbol,
            r.venue == ExchangeId::Unknown,
            r.side == side,
            r.order_type == order_type,
            r.time_in_force == TimeInForce::Gtc,
            r.price == price,
            r.quantity == quantity,
            r.filled_qty == 0,
            r.status == OrderStatus::New,
    {
        Order {
            id: 0,
            client_id: 0,
            symbol,
            venue: ExchangeId::Unknown,
            side,
            order_type,
            time_in_force: TimeInForce::Gtc,
            price,
            quantity,
            filled_qty: 0,
            status: OrderStatus::New,
            timestamp: now_nanos(),
        }
    }

    /// Quantity still open.
    pub fn remaining(&self) -> (r: Quantity)
        requires
            self.wf(),
        ensures
            r == self.quantity - self.filled_qty,
    {
        self.quantity - self.filled_qty
    }

    /// An order is active while it can still trade.
    pub open spec fn spec_is_active(&self) -> bool {
        self.status == OrderStatus::New || self.status == OrderStatus::PartiallyFilled
    }

    /// Whether the order can still trade.
    pub fn is_active(&self) -> (r: bool)
        ensures
            r == self.spec_is_active(),
    {
        match self.status {
            OrderStatus::New => true,
            OrderStatus::PartiallyFilled => true,
            _ => false,
        }
    }
}

// ============================================================================
// Quote
// ============================================================================

/// Top-of-book snapshot.
#[derive(Debug, Clone, Copy)]
pub struct Quote {
    pub bid_price: Price,
    pub ask_price: Price,
    pub bid_qty: Quantity,
    pub ask_qty: Quantity,
    pub timestamp: Timestamp,
}

impl Quote {
    /// Difference between the ask and the bid.
    pub fn spread(&self) -> (r: Price)
        requires
            valid_price(self.bid_price),
            valid_price(self.ask_price),
        ensures
            r == self.ask_price - self.bid_price,
    {
        self.ask_price - self.bid_price
    }

    /// Arithmetic midpoint, rounded toward zero.
    pub fn mid_price(&self) -> (r: Price)
        requires
            valid_price(self.bid_price),
            valid_price(self.ask_price),
        ensures
            r == (self.bid_price + self.ask_price) / 2,
    {
        (self.bid_price + self.ask_price) / 2
    }

    /// Spread in basis points of the midpoint, at fixed-point scale 10^8;
    /// zero when the midpoint is zero.
    pub fn spread_bps(&self) -> (r: i64)
        requires
            valid_price(self.bid_price),
            valid_price(self.ask_price),
        ensures
            r == ({
                let mid = (self.bid_price + self.ask_price) / 2;
                if mid == 0 {
                    0int
                } else {
                    crate::fixed::clamp_spec(
                        crate::fixed::div_trunc(
                            (self.ask_price - self.bid_price) * crate::BPS_MUL,
                            mid,
                        ),
                        i64::MIN as int,
                        i64::MAX as int,
                    )
                }
            }),
    {
        let mid = (self.bid_price + self.ask_price) / 2;
        if mid == 0 {
            0
        } else {
            crate::fixed::sat_i64(
                crate::fixed::div_wide(
                    crate::fixed::mul_wide(self.ask_price - self.bid_price, crate::BPS_MUL),
                    mid as i128,
                ),
            )
        }
    }
}

// ============================================================================
// Trade and Tick
// ============================================================================

/// An executed fill.
#[derive(Debug, Clone)]
pub struct Trade {
    pub order_id: OrderId,
    pub trade_id: OrderId,
    pub symbol: Symbol,
    pub side: Side,
    pub price: Price,
    pub quantity: Quantity,
    pub timestamp: Timestamp,
    pub is_maker: bool,
}

/// A top-of-book market-data update.
#[derive(Debug, Clone, Copy)]
pub struct Tick {
    pub bid: Price,
    pub ask: Price,
    pub bid_qty: Quantity,
    pub ask_qty: Quantity,
    pub last_price: Price,
    pub last_qty: Quantity,
    pub exchange_ts: Timestamp,
    pub local_ts: Timestamp,
    pub sequence: SequenceNum,
}

// ============================================================================
// Multi-venue attribution types
// ============================================================================

/// Top-of-book snapshot attributed to one venue.
#[derive(Debug, Clone, Copy)]
pub struct ExchangeQuote {
    pub exchange: ExchangeId,
    pub bid: Price,
    pub ask: Price,
    pub bid_qty: Quantity,
    pub ask_qty: Quantity,
    pub timestamp: Timestamp,
    pub latency_ns: Timestamp,
}

/// A locked or crossed pair of venue quotes worth taking.
/// `profit_bps` is in basis points at fixed-point scale 10^8.
#[derive(Debug, Clone)]
pub struct ArbitrageOpportunity {
    pub symbol: Symbol,
    pub buy_exchange: ExchangeId,
    pub sell_exchange: ExchangeId,
    pub buy_price: Price,
    pub sell_price: Price,
    pub quantity: Quantity,
    pub profit_bps: i64,
    pub timestamp: Timestamp,
}

// ============================================================================
// Wall clock
// ============================================================================

/// Current time in nanoseconds since the Unix epoch, or 0 when the clock
/// reads before the epoch.
///
/// Relies on std::time::SystemTime::now and its distance from
/// std::time::UNIX_EPOCH; the reading depends on the machine's clock, so
/// nothing is promised of the result.
#[verifier::external_body]
pub fn now_nanos() -> Timestamp {
    std::time::SystemTime::now()
        .duration_since(std::time::UNIX_EPOCH)
        .map(|d| d.as_nanos() as u64)
        .unwrap_or(0)
}

/// Current time in microseconds since the Unix epoch.
pub fn now_micros() -> Timestamp {
    now_nanos() / 1000
}

/// Current time in milliseconds since the Unix epoch.
pub fn now_millis() -> Timestamp {
    now_nanos() / 1_000_000
}

} // verus!
