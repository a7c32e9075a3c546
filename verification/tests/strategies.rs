//! Quoting behaviour of the basic and Avellaneda-Stoikov makers.

use hft::book::OrderBook;
use hft::strategy::{AvellanedaStoikovMM, BasicMarketMaker, MarketMakerParams, Signal};
use hft::types::Symbol;

const PRECISION: i64 = 100_000_000;

fn price(units: i64) -> i64 {
    units * PRECISION
}

fn standard_book() -> OrderBook {
    let mut book = OrderBook::new(Symbol::new("BTCUSDT"));
    book.update_bid(price(50_000), PRECISION);
    book.update_ask(price(50_001), PRECISION);
    book
}

#[test]
fn test_basic_mm_quotes() {
    let params = MarketMakerParams::default();
    let mut mm = BasicMarketMaker::new(params);
    mm.set_enabled(true);

    let book = standard_book();

    let signal = Signal::default();
    let decision = mm.compute_quotes(&book, 0, &signal);

    assert!(decision.should_quote);
    assert!(decision.bid_price < price(50_000));
    assert!(decision.ask_price > price(50_001));
}

#[test]
fn test_basic_quoting_around_mid() {
    // Ten basis points of target spread, position flat: quotes sit exactly
    // half the spread either side of the mid of 50000.5.
    let params = MarketMakerParams::default();
    let mut mm = BasicMarketMaker::new(params);
    mm.set_enabled(true);
    let book = standard_book();
    let decision = mm.compute_quotes_at(&book, 0, &Signal::default(), 1_000_000_000);

    let mid = price(50_000) + PRECISION / 2;
    let half_spread = 2_500_025_000; // mid * 10bps / 20000
    assert!(decision.should_quote);
    assert_eq!(decision.bid_price, mid - half_spread);
    assert_eq!(decision.ask_price, mid + half_spread);
    assert_eq!(decision.bid_size, params.default_order_size);
    assert_eq!(decision.ask_size, params.default_order_size);
}

#[test]
fn test_inventory_skew_shifts_quotes_down() {
    // At the full long position the skew is one; both quotes shift down
    // and the buy size collapses to the minimum.
    let params = MarketMakerParams::default();
    let mut flat = BasicMarketMaker::new(params);
    flat.set_enabled(true);
    let mut long = BasicMarketMaker::new(params);
    long.set_enabled(true);
    let book = standard_book();
    let signal = Signal::default();

    let base = flat.compute_quotes_at(&book, 0, &signal, 1_000_000_000);
    let skewed = long.compute_quotes_at(&book, params.max_position, &signal, 1_000_000_000);

    assert!(skewed.should_quote);
    let mid = price(50_000) + PRECISION / 2;
    let skew_adj = mid / 20_000; // mid * 1.0 * 0.5 / 10000
    assert_eq!(skewed.bid_price, base.bid_price - skew_adj);
    assert_eq!(skewed.ask_price, base.ask_price - skew_adj);
    assert_eq!(skewed.bid_size, params.min_order_size);
    assert_eq!(skewed.ask_size, params.default_order_size);
}

#[test]
fn test_disabled_strategy_never_quotes() {
    let mut mm = BasicMarketMaker::new(MarketMakerParams::default());
    let book = standard_book();
    let decision = mm.compute_quotes(&book, 0, &Signal::default());
    assert!(!decision.should_quote);
    assert_eq!(decision.reason, "Strategy disabled");
}

#[test]
fn test_invalid_book_declines() {
    let mut mm = BasicMarketMaker::new(MarketMakerParams::default());
    mm.set_enabled(true);
    let mut book = OrderBook::new(Symbol::new("BTCUSDT"));
    book.update_bid(price(101), PRECISION);
    book.update_ask(price(100), PRECISION);
    let decision = mm.compute_quotes(&book, 0, &Signal::default());
    assert!(!decision.should_quote);
    assert_eq!(decision.reason, "Invalid orderbook");
}

#[test]
fn test_quote_throttle_within_lifetime() {
    let mut mm = BasicMarketMaker::new(MarketMakerParams::default());
    mm.set_enabled(true);
    let book = standard_book();
    let signal = Signal::default();
    let now: u64 = 1_000_000_000_000;

    let first = mm.compute_quotes_at(&book, 0, &signal, now);
    assert!(first.should_quote);
    // Same prices a hair later, inside the minimum quote lifetime, with
    // the active quotes standing where the fresh ones would go.
    mm.active_bid_price = first.bid_price;
    mm.active_ask_price = first.ask_price;
    let second = mm.compute_quotes_at(&book, 0, &signal, now + 1_000);
    assert!(!second.should_quote);
    assert_eq!(second.reason, "Prices unchanged");
    // Once the lifetime has passed, the same prices quote again.
    let third = mm.compute_quotes_at(&book, 0, &signal, now + 60_000_000);
    assert!(third.should_quote);
}

#[test]
fn test_volatility_widens_spread() {
    let params = MarketMakerParams::default();
    let mut calm = BasicMarketMaker::new(params);
    calm.set_enabled(true);
    let mut stormy = BasicMarketMaker::new(params);
    stormy.set_enabled(true);
    let book = standard_book();

    let quiet = calm.compute_quotes_at(&book, 0, &Signal::default(), 1);
    let mut sig = Signal::default();
    sig.volatility = PRECISION; // a volatility of one doubles the target
    let wide = stormy.compute_quotes_at(&book, 0, &sig, 1);
    assert!(wide.ask_price - wide.bid_price > quiet.ask_price - quiet.bid_price);
}

#[test]
fn test_avellaneda_stoikov_quotes() {
    let params = MarketMakerParams::default();
    // Risk aversion 0.1, volatility 0.05, a small arrival term, an hour.
    let mut mm = AvellanedaStoikovMM::new(
        params,
        PRECISION / 10,
        PRECISION / 20,
        PRECISION / 100,
        3_600,
    );
    mm.set_enabled(true);
    let book = standard_book();
    let mut sig = Signal::default();
    sig.timestamp = 1_700_000_000_000_000_000;

    let decision = mm.compute_quotes(&book, 0, &sig);
    assert!(decision.should_quote);
    let mid = price(50_000) + PRECISION / 2;
    // Flat position: the reservation price is the mid itself.
    assert_eq!(mid - decision.bid_price, decision.ask_price - mid);
    assert!(decision.bid_price < decision.ask_price);
}

#[test]
fn test_avellaneda_stoikov_leans_when_long() {
    let params = MarketMakerParams::default();
    let mut mm = AvellanedaStoikovMM::new(
        params,
        PRECISION / 10,
        PRECISION / 20,
        PRECISION / 100,
        3_600,
    );
    mm.set_enabled(true);
    let book = standard_book();
    let mut sig = Signal::default();
    sig.timestamp = 1_700_000_000_000_000_000;

    let flat = mm.compute_quotes(&book, 0, &sig);
    let long = mm.compute_quotes(&book, params.max_position, &sig);
    // A long position pushes the reservation price, and both quotes, down.
    assert!(long.bid_price <= flat.bid_price);
    assert!(long.ask_price <= flat.ask_price);
}

#[test]
fn test_strategy_callbacks() {
    let mut mm = BasicMarketMaker::new(MarketMakerParams::default());
    mm.active_bid_id = 5;
    mm.active_bid_price = price(100);
    mm.on_cancel(5);
    assert_eq!(mm.active_bid_id, 0);
    assert_eq!(mm.active_bid_price, 0);
    assert_eq!(mm.fills, 0);
    let o = hft::types::Order::new(
        Symbol::new("BTCUSDT"),
        hft::types::Side::Buy,
        hft::types::OrderType::Limit,
        price(100),
        PRECISION,
    );
    mm.on_fill(&o, PRECISION, price(100));
    assert_eq!(mm.fills, 1);
    assert!(!mm.is_enabled());
    mm.set_enabled(true);
    assert!(mm.is_enabled());
    assert_eq!(mm.params().target_spread_bps, 1_000_000_000);
}
