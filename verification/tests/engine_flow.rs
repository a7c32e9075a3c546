//! Engine behaviour: event flow, state machine, builder, and request
//! signing.

use hft::engine::{EngineBuilder, EngineConfig, EngineStrategy, TradingEngine};
use hft::exchange::{signed_query, select_exchange_for_order, BinanceConfig};
use hft::types::{ExchangeId, ExchangeQuote, Side, Symbol, Tick};

const PRECISION: i64 = 100_000_000;

fn tick(bid_units: i64, ask_units: i64) -> Tick {
    Tick {
        bid: bid_units * PRECISION,
        ask: ask_units * PRECISION,
        bid_qty: PRECISION,
        ask_qty: PRECISION,
        last_price: bid_units * PRECISION,
        last_qty: 0,
        exchange_ts: 0,
        local_ts: 0,
        sequence: 0,
    }
}

#[test]
fn test_engine_processes_ticks() {
    let mut engine = TradingEngine::new(EngineConfig::default());
    engine.start();
    assert!(engine.is_running());

    engine.on_tick(tick(50_000, 50_001));
    engine.on_tick(tick(50_000, 50_002));
    assert!(engine.process_next());
    assert!(engine.process_next());
    assert!(engine.process_next()); // empty queue: quietly true

    let stats = engine.stats();
    assert_eq!(stats.ticks_processed, 2);
    // Each tick writes its own price level; both ask levels now rest on
    // the book and the lower one is best.
    assert_eq!(engine.orderbook().best_bid(), Some(50_000 * PRECISION));
    assert_eq!(engine.orderbook().best_ask(), Some(50_001 * PRECISION));
}

#[test]
fn test_engine_shutdown_event() {
    let mut engine = TradingEngine::new(EngineConfig::default());
    engine.start();
    engine.on_tick(tick(50_000, 50_001));
    engine.stop();
    assert!(!engine.is_running());
    assert!(engine.process_next()); // the tick queued before the stop
    assert!(!engine.process_next()); // the shutdown event itself
}

#[test]
fn test_engine_trading_switch_and_ids() {
    let mut engine = TradingEngine::new(EngineConfig::default());
    assert!(!engine.is_trading_enabled());
    engine.enable_trading();
    assert!(engine.is_trading_enabled());
    engine.disable_trading();
    assert!(!engine.is_trading_enabled());
    assert_eq!(engine.next_order_id(), 1);
    assert_eq!(engine.next_order_id(), 2);
}

#[test]
fn test_engine_counts_trades() {
    let mut engine = TradingEngine::new(EngineConfig::default());
    engine.start();
    engine.on_trade(hft::types::Trade {
        order_id: 1,
        trade_id: 1,
        symbol: Symbol::new("BTCUSDT"),
        side: Side::Buy,
        price: 50_000 * PRECISION,
        quantity: PRECISION / 100,
        timestamp: 0,
        is_maker: true,
    });
    assert!(engine.process_next());
    assert_eq!(engine.stats().trades_executed, 1);
    assert_eq!(engine.risk_manager().position.quantity, PRECISION / 100);
}

#[test]
fn test_engine_forwards_cancels_to_strategy() {
    let mut engine = TradingEngine::new(EngineConfig::default());
    engine.start();
    if let EngineStrategy::Basic(ref mut s) = engine.strategy {
        s.active_bid_id = 9;
        s.active_bid_price = 50_000 * PRECISION;
    }
    let mut order = hft::types::Order::new(
        Symbol::new("BTCUSDT"),
        Side::Buy,
        hft::types::OrderType::Limit,
        50_000 * PRECISION,
        PRECISION,
    );
    order.id = 9;
    order.status = hft::types::OrderStatus::Canceled;
    engine.on_order_update(order);
    assert!(engine.process_next());
    if let EngineStrategy::Basic(ref s) = engine.strategy {
        assert_eq!(s.active_bid_id, 0);
        assert_eq!(s.active_bid_price, 0);
    } else {
        panic!("engine holds the basic strategy by default");
    }
}

#[test]
fn test_engine_builder() {
    let engine = EngineBuilder::new()
        .symbol(Symbol::new("ETHUSDT"))
        .exchange("binance".to_string())
        .enable_trading(false)
        .build();
    assert!(!engine.is_running());
    assert_eq!(engine.orderbook().symbol().as_str(), "ETHUSDT");
}

#[test]
fn test_signed_query_appends_hmac() {
    // RFC 2104 test vector for HMAC-SHA256.
    let signed = signed_query("The quick brown fox jumps over the lazy dog", "key");
    assert_eq!(
        signed,
        "The quick brown fox jumps over the lazy dog&signature=\
         f7bc83f430538424b13298e6aa6fb143ef4d59a14946175997479dbc2d1a3cd8"
    );
}

#[test]
fn test_select_exchange_for_order() {
    let quote = |e: ExchangeId, bid: i64, ask: i64| {
        (
            e,
            ExchangeQuote {
                exchange: e,
                bid: bid * PRECISION,
                ask: ask * PRECISION,
                bid_qty: PRECISION,
                ask_qty: PRECISION,
                timestamp: 0,
                latency_ns: 0,
            },
        )
    };
    let quotes = vec![
        quote(ExchangeId::Binance, 49_999, 50_002),
        quote(ExchangeId::Bybit, 50_000, 50_001),
    ];
    // Buy at the lowest ask, sell at the highest bid.
    assert_eq!(select_exchange_for_order(Side::Buy, &quotes), Some(ExchangeId::Bybit));
    assert_eq!(select_exchange_for_order(Side::Sell, &quotes), Some(ExchangeId::Bybit));
    let empty: Vec<(ExchangeId, ExchangeQuote)> = Vec::new();
    assert_eq!(select_exchange_for_order(Side::Buy, &empty), None);
}

#[test]
fn test_binance_config_endpoints() {
    let testnet = BinanceConfig::testnet();
    assert!(testnet.base.testnet);
    assert!(!testnet.use_futures);
    assert_eq!(testnet.base.rest_url, "https://testnet.binance.vision");
    let futures = BinanceConfig::futures_testnet();
    assert!(futures.use_futures);
    assert_eq!(futures.base.rest_url, "https://testnet.binancefuture.com");
}
