//! Core type behaviour: sides, orders, quotes, fixed-point conversions.

use hft::types::{Order, OrderType, Quote, Side, Symbol};

const PRECISION: i64 = 100_000_000;

#[test]
fn test_side_opposite() {
    assert_eq!(Side::Buy.opposite(), Side::Sell);
    assert_eq!(Side::Sell.opposite(), Side::Buy);
}

#[test]
fn test_order_remaining() {
    let mut order = Order::new(
        Symbol::new("BTCUSDT"),
        Side::Buy,
        OrderType::Limit,
        50_000 * PRECISION,
        PRECISION,
    );
    assert_eq!(order.remaining(), PRECISION);

    order.filled_qty = PRECISION / 2;
    assert_eq!(order.remaining(), PRECISION / 2);
}

#[test]
fn test_order_is_active() {
    let mut order = Order::new(
        Symbol::new("BTCUSDT"),
        Side::Sell,
        OrderType::Limit,
        50_000 * PRECISION,
        PRECISION,
    );
    assert!(order.is_active());
    order.status = hft::types::OrderStatus::Filled;
    assert!(!order.is_active());
    order.status = hft::types::OrderStatus::PartiallyFilled;
    assert!(order.is_active());
    order.status = hft::types::OrderStatus::Canceled;
    assert!(!order.is_active());
}

#[test]
fn test_quote_mid_and_spread() {
    let q = Quote {
        bid_price: 50_000 * PRECISION,
        ask_price: 50_001 * PRECISION,
        bid_qty: PRECISION,
        ask_qty: PRECISION,
        timestamp: 0,
    };
    assert_eq!(q.spread(), PRECISION);
    assert_eq!(q.mid_price(), 50_000 * PRECISION + PRECISION / 2);
}

#[test]
fn test_symbol_round_trip() {
    let s = Symbol::new("ETHUSDT");
    assert_eq!(s.as_str(), "ETHUSDT");
    assert_eq!(s.duplicate().as_str(), "ETHUSDT");
}
