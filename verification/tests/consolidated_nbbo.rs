//! Multi-venue behaviour: NBBO derivation, arbitrage detection, the
//! cross-venue maker, and cross-venue risk.

use hft::arb::{ArbitrageConfig, ArbitrageDetector, ArbitrageExecutor};
use hft::consolidated::ConsolidatedBook;
use hft::cross::{CrossExchangeMM, CrossExchangeMMParams, CrossExchangePosition};
use hft::cross_risk::{CrossExchangeRiskLimits, RiskManager};
use hft::types::{ExchangeId, Side, Symbol};

const PRECISION: i64 = 100_000_000;

fn price(units: i64) -> i64 {
    units * PRECISION
}

fn crossed_book() -> ConsolidatedBook {
    let mut book = ConsolidatedBook::new(Symbol::new("BTCUSDT"));
    book.update(ExchangeId::Binance, price(49_999), PRECISION, price(50_001), PRECISION);
    book.update(ExchangeId::Bybit, price(50_002), PRECISION, price(50_004), PRECISION);
    book
}

#[test]
fn test_nbbo_takes_best_of_each_side() {
    let book = crossed_book();
    let nbbo = book.get_nbbo();
    assert_eq!(nbbo.best_bid, price(50_002));
    assert_eq!(nbbo.best_bid_exchange, ExchangeId::Bybit);
    assert_eq!(nbbo.best_ask, price(50_001));
    assert_eq!(nbbo.best_ask_exchange, ExchangeId::Binance);
    assert!(nbbo.has_arbitrage());
    assert!(!nbbo.is_valid());
}

#[test]
fn test_nbbo_tracks_updates() {
    let mut book = ConsolidatedBook::new(Symbol::new("BTCUSDT"));
    book.update(ExchangeId::Binance, price(100), PRECISION, price(101), PRECISION);
    let nbbo = book.get_nbbo();
    assert_eq!(nbbo.best_bid, price(100));
    assert_eq!(nbbo.best_ask, price(101));
    assert!(nbbo.is_valid());
    assert_eq!(nbbo.spread(), price(1));

    // A better bid on another venue takes the bid side over.
    book.update(ExchangeId::Okx, price(100) + PRECISION / 2, PRECISION, price(102), PRECISION);
    let nbbo = book.get_nbbo();
    assert_eq!(nbbo.best_bid, price(100) + PRECISION / 2);
    assert_eq!(nbbo.best_bid_exchange, ExchangeId::Okx);
    assert_eq!(nbbo.best_ask, price(101));
    assert_eq!(nbbo.best_ask_exchange, ExchangeId::Binance);
}

#[test]
fn test_find_arbitrage_legs() {
    let book = crossed_book();
    let opp = book.find_arbitrage().unwrap();
    assert_eq!(opp.buy_exchange, ExchangeId::Binance);
    assert_eq!(opp.sell_exchange, ExchangeId::Bybit);
    assert_eq!(opp.buy_price, price(50_001));
    assert_eq!(opp.sell_price, price(50_002));
    assert_eq!(opp.quantity, PRECISION);
    // 10^4 * 10^8 * 1 / 50001.5, truncated.
    assert_eq!(opp.profit_bps, 19_999_400);
}

#[test]
fn test_detector_profit_floor() {
    let book = crossed_book();

    // The default floor of five basis points rejects a fifth of one.
    let mut strict = ArbitrageDetector::new(ArbitrageConfig::default());
    assert!(strict.detect(&book).is_none());
    assert_eq!(strict.opportunities_found(), 0);

    // A floor of a tenth of a basis point accepts it, with the quantity
    // clamped into the configured band.
    let mut config = ArbitrageConfig::default();
    config.min_profit_bps = PRECISION / 10;
    let max_quantity = config.max_quantity;
    let mut lenient = ArbitrageDetector::new(config);
    let opp = lenient.detect(&book).unwrap();
    assert_eq!(opp.quantity, max_quantity);
    assert_eq!(lenient.opportunities_found(), 1);
    lenient.record_execution(true);
    assert_eq!(lenient.opportunities_executed(), 1);
}

#[test]
fn test_executor_profit() {
    let book = crossed_book();
    let mut config = ArbitrageConfig::default();
    config.min_profit_bps = PRECISION / 10;
    let mut detector = ArbitrageDetector::new(config);
    let opp = detector.detect(&book).unwrap();
    let profit = ArbitrageExecutor::new().execute(&opp).unwrap();
    // A tenth of a unit across a gap of one quote unit.
    assert_eq!(profit, PRECISION / 10);
}

#[test]
fn test_cross_mm_quotes_both_venues() {
    let mut book = ConsolidatedBook::new(Symbol::new("BTCUSDT"));
    book.update(ExchangeId::Binance, price(50_000), PRECISION, price(50_001), PRECISION);
    book.update(ExchangeId::Bybit, price(50_000), PRECISION, price(50_001), PRECISION);

    let params = CrossExchangeMMParams::default();
    let mut mm = CrossExchangeMM::new(params.clone());
    let mut position = CrossExchangePosition::new();
    let silent = mm.compute_quotes(&book, &position);
    assert!(!silent.should_quote);

    mm.enable();
    let quotes = mm.compute_quotes(&book, &position);
    assert!(quotes.should_quote);
    assert_eq!(quotes.quotes.len(), 2);
    let mid = price(50_000) + PRECISION / 2;
    let (venue, bid, ask, bsz, asz) = quotes.quotes[0];
    assert_eq!(venue, ExchangeId::Binance);
    assert!(bid < mid && ask > mid);
    assert_eq!(bsz, params.default_order_size);
    assert_eq!(asz, params.default_order_size);

    // A venue at its position cap is skipped.
    position.update(ExchangeId::Binance, params.max_position_per_exchange);
    let fewer = mm.compute_quotes(&book, &position);
    assert_eq!(fewer.quotes.len(), 1);
    assert_eq!(fewer.quotes[0].0, ExchangeId::Bybit);
}

#[test]
fn test_cross_mm_hedge() {
    let book = crossed_book();
    let mm = CrossExchangeMM::new(CrossExchangeMMParams::default());

    // A buy fill on Binance hedges with a sell at the best bid venue.
    let (venue, order) = mm
        .compute_hedge(ExchangeId::Binance, Side::Buy, PRECISION / 2, &book)
        .unwrap();
    assert_eq!(venue, ExchangeId::Bybit);
    assert_eq!(order.side, Side::Sell);
    assert_eq!(order.price, price(50_002));
    assert_eq!(order.quantity, PRECISION / 2);

    // When the best venue is the fill venue, the first other hedge venue
    // takes it.
    let (venue2, _) = mm
        .compute_hedge(ExchangeId::Bybit, Side::Buy, PRECISION / 2, &book)
        .unwrap();
    assert_eq!(venue2, ExchangeId::Binance);

    let mut off = CrossExchangeMMParams::default();
    off.hedge_immediately = false;
    let quiet = CrossExchangeMM::new(off);
    assert!(quiet.compute_hedge(ExchangeId::Binance, Side::Buy, PRECISION, &book).is_none());
}

#[test]
fn test_cross_risk_caps() {
    let limits = CrossExchangeRiskLimits::default();
    let mut rm = RiskManager::new(limits.clone());

    // Inside the per-venue cap.
    assert!(rm.check_order(ExchangeId::Binance, Side::Buy, limits.max_position_per_exchange));
    // Beyond it.
    assert!(!rm.check_order(
        ExchangeId::Binance,
        Side::Buy,
        limits.max_position_per_exchange + 1
    ));

    rm.on_fill(ExchangeId::Binance, Side::Buy, limits.max_position_per_exchange, 0);
    rm.on_fill(ExchangeId::Bybit, Side::Buy, limits.max_position_per_exchange, 0);
    assert_eq!(rm.get_total_position(), limits.max_total_position);
    // The total cap now rejects any further buy.
    assert!(!rm.check_order(ExchangeId::Okx, Side::Buy, PRECISION / 100));
    // A sell that reduces the total passes.
    assert!(rm.check_order(ExchangeId::Binance, Side::Sell, PRECISION / 100));
}

#[test]
fn test_cross_risk_kill_switch() {
    let mut limits = CrossExchangeRiskLimits::default();
    limits.max_daily_loss = 100 * PRECISION;
    let mut rm = RiskManager::new(limits);

    rm.on_fill(ExchangeId::Binance, Side::Buy, PRECISION / 100, -(101 * PRECISION));
    assert!(rm.is_kill_switch_active());
    assert!(!rm.check_order(ExchangeId::Binance, Side::Buy, PRECISION / 100));
    assert_eq!(rm.get_daily_pnl(), -(101 * PRECISION) as i128);

    rm.deactivate_kill_switch();
    rm.reset_daily();
    assert_eq!(rm.get_daily_pnl(), 0);
    assert!(rm.check_order(ExchangeId::Binance, Side::Sell, PRECISION / 100));
}
