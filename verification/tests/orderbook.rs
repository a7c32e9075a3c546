//! Order book behaviour: L2 updates, L3 bookkeeping, depth queries, vwap
//! and imbalance.

use hft::book::OrderBook;
use hft::types::{Order, OrderType, Side, Symbol};

const PRECISION: i64 = 100_000_000;

fn price(units: i64) -> i64 {
    units * PRECISION
}

#[test]
fn test_orderbook_basic() {
    let mut book = OrderBook::new(Symbol::new("BTCUSDT"));

    book.update_bid(price(50_000), PRECISION);
    book.update_bid(price(49_999), 2 * PRECISION);
    book.update_ask(price(50_001), PRECISION + PRECISION / 2);
    book.update_ask(price(50_002), 2 * PRECISION + PRECISION / 2);

    assert_eq!(book.best_bid(), Some(price(50_000)));
    assert_eq!(book.best_ask(), Some(price(50_001)));
    assert_eq!(book.spread(), Some(price(1)));
}

#[test]
fn test_orderbook_imbalance() {
    let mut book = OrderBook::new(Symbol::new("BTCUSDT"));

    book.update_bid(price(100), 10 * PRECISION);
    book.update_ask(price(101), 5 * PRECISION);

    let imbalance = book.imbalance(1);
    assert!(imbalance > 0);
}

#[test]
fn test_orderbook_vwap() {
    let mut book = OrderBook::new(Symbol::new("BTCUSDT"));

    book.update_ask(price(100), PRECISION);
    book.update_ask(price(101), PRECISION);
    book.update_ask(price(102), PRECISION);

    // Buying two units walks the 100 and 101 levels: (100 + 101) / 2.
    let vwap = book.vwap_ask(2 * PRECISION).unwrap();
    let expected = 100 * PRECISION + PRECISION / 2;
    assert!((vwap - expected).abs() < PRECISION / 100);
}

#[test]
fn test_vwap_exact_midpoint() {
    let mut book = OrderBook::new(Symbol::new("BTCUSDT"));
    book.update_ask(price(100), PRECISION);
    book.update_ask(price(101), PRECISION);
    book.update_ask(price(102), PRECISION);
    assert_eq!(book.vwap_ask(2 * PRECISION), Some(10_050_000_000));
    // The book cannot fill four units.
    assert_eq!(book.vwap_ask(4 * PRECISION), None);
    // Selling walks the bids from the top.
    book.update_bid(price(99), PRECISION);
    book.update_bid(price(98), PRECISION);
    assert_eq!(book.vwap_bid(2 * PRECISION), Some(9_850_000_000));
}

#[test]
fn test_zero_quantity_removes_level() {
    let mut book = OrderBook::new(Symbol::new("BTCUSDT"));
    book.update_bid(price(100), PRECISION);
    assert_eq!(book.bid_depth(), 1);
    book.update_bid(price(100), 0);
    assert_eq!(book.bid_depth(), 0);
    assert_eq!(book.best_bid(), None);
}

#[test]
fn test_empty_and_crossed_book_validity() {
    let mut book = OrderBook::new(Symbol::new("BTCUSDT"));
    assert!(book.is_valid());
    book.update_bid(price(100), PRECISION);
    assert!(book.is_valid());
    book.update_ask(price(101), PRECISION);
    assert!(book.is_valid());
    // A bid written at or above the ask crosses the book.
    book.update_bid(price(101), PRECISION);
    assert!(!book.is_valid());
}

#[test]
fn test_spread_bps_value() {
    let mut book = OrderBook::new(Symbol::new("BTCUSDT"));
    book.update_bid(price(50_000), PRECISION);
    book.update_ask(price(50_001), PRECISION);
    // 10^4 * 10^8 * spread / mid, truncated.
    assert_eq!(book.spread_bps(), Some(19_999_800));
}

#[test]
fn test_depth_queries() {
    let mut book = OrderBook::new(Symbol::new("BTCUSDT"));
    book.update_ask(price(101), PRECISION);
    book.update_ask(price(102), 2 * PRECISION);
    book.update_ask(price(103), 3 * PRECISION);
    assert_eq!(book.ask_depth(), 3);
    let second = book.ask_level(1).unwrap();
    assert_eq!(second.price, price(102));
    assert_eq!(second.quantity, 2 * PRECISION);
    assert!(book.ask_level(3).is_none());
    assert_eq!(book.best_ask_qty(), Some(PRECISION));
}

#[test]
fn test_apply_snapshot() {
    let mut book = OrderBook::new(Symbol::new("BTCUSDT"));
    book.update_bid(price(90), PRECISION);
    book.apply_snapshot(
        vec![(price(100), PRECISION), (price(99), 2 * PRECISION)],
        vec![(price(101), PRECISION)],
    );
    assert_eq!(book.best_bid(), Some(price(100)));
    assert_eq!(book.best_ask(), Some(price(101)));
    assert_eq!(book.bid_depth(), 2);
    assert_eq!(book.ask_depth(), 1);
}

fn l3_order(id: u64, side: Side, px: i64, qty: i64) -> Order {
    let mut o = Order::new(Symbol::new("BTCUSDT"), side, OrderType::Limit, px, qty);
    o.id = id;
    o
}

#[test]
fn test_l3_level_aggregation() {
    let mut book = OrderBook::new(Symbol::new("BTCUSDT"));
    book.add_order(l3_order(1, Side::Buy, price(100), PRECISION));
    book.add_order(l3_order(2, Side::Buy, price(100), 2 * PRECISION));
    book.add_order(l3_order(3, Side::Sell, price(101), PRECISION));

    assert_eq!(book.best_bid(), Some(price(100)));
    let level = book.bid_level(0).unwrap();
    assert_eq!(level.quantity, 3 * PRECISION);
    assert_eq!(level.order_count, 2);

    let removed = book.remove_order(2).unwrap();
    assert_eq!(removed.id, 2);
    let level = book.bid_level(0).unwrap();
    assert_eq!(level.quantity, PRECISION);
    assert_eq!(level.order_count, 1);

    // Removing the last order at the price removes the level.
    book.remove_order(1);
    assert_eq!(book.best_bid(), None);
    assert_eq!(book.best_ask(), Some(price(101)));

    assert!(book.remove_order(42).is_none());
}

#[test]
fn test_book_at_value_bounds() {
    // The largest admitted price and quantity still behave.
    let limit: i64 = 100_000_000_000_000_000;
    let mut book = OrderBook::new(Symbol::new("BTCUSDT"));
    book.update_bid(limit - 1, limit);
    book.update_ask(limit, limit);
    assert!(book.is_valid());
    assert_eq!(book.spread(), Some(1));
    assert_eq!(book.vwap_ask(limit), Some(limit));
}
