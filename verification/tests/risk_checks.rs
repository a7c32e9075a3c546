//! Risk manager behaviour: the check order, position accounting, rate
//! limiting and the kill switch.

use hft::risk::{RiskLimits, RiskManager, RiskViolation};
use hft::types::{Order, OrderType, Side, Symbol};

const PRECISION: i64 = 100_000_000;

fn order(side: Side, px_units: i64, qty: i64) -> Order {
    Order::new(Symbol::new("BTCUSDT"), side, OrderType::Limit, px_units * PRECISION, qty)
}

#[test]
fn test_risk_check_pass() {
    let limits = RiskLimits::default();
    let mut rm = RiskManager::new(limits);

    let o = order(Side::Buy, 50_000, PRECISION / 100);

    let result = rm.check_order(&o);
    assert!(result.passed);
    assert!(result.message.is_empty());
}

#[test]
fn test_position_limit() {
    let mut limits = RiskLimits::default();
    limits.max_position_qty = PRECISION / 10;
    let mut rm = RiskManager::new(limits);

    let o = order(Side::Buy, 50_000, PRECISION / 5);

    let result = rm.check_order(&o);
    assert!(!result.passed);
    assert_eq!(result.violation, Some(RiskViolation::PositionLimit));
}

#[test]
fn test_order_size_limit() {
    let mut rm = RiskManager::new(RiskLimits::default());
    // Two tenths of a unit: inside the position limit, past the order cap.
    let o = order(Side::Buy, 50_000, PRECISION / 5);
    let mut limits = RiskLimits::default();
    limits.max_position_qty = PRECISION;
    rm.limits = limits;
    let result = rm.check_order_at(&o, 0);
    assert_eq!(result.violation, Some(RiskViolation::OrderSizeLimit));
}

#[test]
fn test_order_value_limit() {
    let mut rm = RiskManager::new(RiskLimits::default());
    // A tenth of a unit at 200000: within size, value 20000 over the cap.
    let o = order(Side::Buy, 200_000, PRECISION / 10);
    let result = rm.check_order_at(&o, 0);
    assert_eq!(result.violation, Some(RiskViolation::OrderValueLimit));
}

#[test]
fn test_rate_limit_same_second() {
    let mut limits = RiskLimits::default();
    limits.max_orders_per_second = 2;
    let mut rm = RiskManager::new(limits);
    let o = order(Side::Buy, 50_000, PRECISION / 100);

    assert!(rm.check_order_at(&o, 1_000).passed);
    assert!(rm.check_order_at(&o, 1_000).passed);
    let third = rm.check_order_at(&o, 1_000);
    assert!(!third.passed);
    assert_eq!(third.violation, Some(RiskViolation::RateLimit));
    // The next wall-clock second opens a fresh window.
    assert!(rm.check_order_at(&o, 1_001).passed);
}

#[test]
fn test_open_orders_limit() {
    let mut limits = RiskLimits::default();
    limits.max_open_orders = 1;
    let mut rm = RiskManager::new(limits);
    let mut o = order(Side::Buy, 50_000, PRECISION / 100);
    o.id = 7;
    rm.on_order_sent(o.clone());
    let result = rm.check_order_at(&o, 0);
    assert_eq!(result.violation, Some(RiskViolation::OpenOrdersLimit));
    rm.on_order_canceled(7);
    assert!(rm.check_order_at(&o, 1).passed);
}

#[test]
fn test_daily_loss_latches_kill_switch() {
    let mut rm = RiskManager::new(RiskLimits::default());
    let buy = order(Side::Buy, 50_000, PRECISION);
    let sell = order(Side::Sell, 49_000, PRECISION);

    // Buy one unit at 50000, sell it at 49000: a realised loss of 1000,
    // exactly the default daily limit.
    rm.on_fill(&buy, PRECISION, 50_000 * PRECISION);
    rm.on_fill(&sell, PRECISION, 49_000 * PRECISION);
    assert_eq!(rm.get_position(), 0);

    let probe = order(Side::Buy, 50_000, PRECISION / 100);
    let result = rm.check_order_at(&probe, 10);
    assert_eq!(result.violation, Some(RiskViolation::DailyLossLimit));
    assert!(rm.is_kill_switch_active());

    // Latched: every later check fails on the kill switch alone, and the
    // message is determined by the violation.
    let again = rm.check_order_at(&probe, 11);
    assert_eq!(again.violation, Some(RiskViolation::KillSwitchActive));
    assert_eq!(again.message, "Kill switch is active");

    rm.deactivate_kill_switch();
    assert!(!rm.is_kill_switch_active());
}

#[test]
fn test_fill_round_trip_conserves_position() {
    let mut rm = RiskManager::new(RiskLimits::default());
    let buy = order(Side::Buy, 50_000, PRECISION);
    let sell = order(Side::Sell, 50_100, PRECISION);

    rm.on_fill(&buy, PRECISION, 50_000 * PRECISION);
    assert_eq!(rm.get_position(), PRECISION);
    assert_eq!(rm.position.avg_price, 50_000 * PRECISION);

    rm.on_fill(&sell, PRECISION, 50_100 * PRECISION);
    assert_eq!(rm.get_position(), 0);
    // Realised profit is exactly q * (sell - buy): 100 quote units.
    assert_eq!(rm.position.realized_pnl, 100 * PRECISION as i128);
    assert_eq!(rm.daily_realized_pnl, 100 * PRECISION as i128);
}

#[test]
fn test_fill_weighted_average() {
    let mut rm = RiskManager::new(RiskLimits::default());
    let buy = order(Side::Buy, 50_000, PRECISION);
    rm.on_fill(&buy, PRECISION / 2, 50_000 * PRECISION);
    rm.on_fill(&buy, PRECISION / 2, 51_000 * PRECISION);
    assert_eq!(rm.get_position(), PRECISION);
    assert_eq!(rm.position.avg_price, 50_500 * PRECISION);
}

#[test]
fn test_short_cover_accounting() {
    let mut rm = RiskManager::new(RiskLimits::default());
    let sell = order(Side::Sell, 50_000, PRECISION);
    let buy = order(Side::Buy, 49_500, PRECISION);
    rm.on_fill(&sell, PRECISION, 50_000 * PRECISION);
    assert_eq!(rm.get_position(), -PRECISION);
    rm.on_fill(&buy, PRECISION, 49_500 * PRECISION);
    assert_eq!(rm.get_position(), 0);
    assert_eq!(rm.position.realized_pnl, 500 * PRECISION as i128);
}

#[test]
fn test_position_queries() {
    let mut rm = RiskManager::new(RiskLimits::default());
    assert!(rm.position.is_flat());
    let buy = order(Side::Buy, 50_000, PRECISION);
    rm.on_fill(&buy, PRECISION, 50_000 * PRECISION);
    assert!(rm.position.is_long());
    assert!(!rm.position.is_short());
    assert_eq!(
        rm.position.notional_value(50_000 * PRECISION),
        50_000 * PRECISION as i128
    );
}

#[test]
fn test_counters_and_reset() {
    let mut rm = RiskManager::new(RiskLimits::default());
    let o = order(Side::Buy, 50_000, PRECISION / 100);
    rm.check_order_at(&o, 0);
    rm.activate_kill_switch("drill");
    rm.check_order_at(&o, 1);
    assert_eq!(rm.orders_checked(), 2);
    assert_eq!(rm.orders_rejected(), 1);
    rm.deactivate_kill_switch();
    rm.reset_daily_stats();
    assert_eq!(rm.daily_realized_pnl, 0);
}

#[test]
fn test_drawdown_latches_kill_switch() {
    let mut rm = RiskManager::new(RiskLimits::default());
    // Win 3000 to set the equity peak, then give 2100 of it back: the
    // drawdown passes the default 2000 limit and latches the kill switch.
    rm.on_fill(&order(Side::Buy, 50_000, PRECISION), PRECISION, 50_000 * PRECISION);
    rm.on_fill(&order(Side::Sell, 53_000, PRECISION), PRECISION, 53_000 * PRECISION);
    assert!(!rm.is_kill_switch_active());
    rm.on_fill(&order(Side::Buy, 50_000, PRECISION), PRECISION, 50_000 * PRECISION);
    rm.on_fill(&order(Side::Sell, 47_900, PRECISION), PRECISION, 47_900 * PRECISION);
    assert!(rm.is_kill_switch_active());
}
