//! The trading engine: a state machine from queued market events to book
//! updates, strategy quotes and risk accounting.
//!
//! The engine core is synchronous and verified: callers enqueue events
//! with `on_tick`, `on_order_update` and `on_trade`, and a driver loop
//! (which lives outside this library, where the scheduler does) calls
//! `process_next` until it returns `false`.

use vstd::prelude::*;

use crate::book::OrderBook;
use crate::queue::{is_pow2, SpscQueue};
use crate::risk::{RiskLimits, RiskManager};
use crate::risk::{spec_fill, spec_sat128};
use crate::strategy::{
    spec_basic_on_cancel, AvellanedaStoikovMM, BasicMarketMaker, MarketMakerParams, QuoteDecision,
    Signal,
};
use crate::types::{
    now_nanos, Order, OrderId, Symbol, Tick, Timestamp, Trade, VALUE_LIMIT,
};

verus! {

/// Engine configuration.
#[derive(Debug, Clone)]
pub struct EngineConfig {
    pub symbol: Symbol,
    pub exchange: String,
    pub strategy: MarketMakerParams,
    pub risk: RiskLimits,
    pub tick_buffer_size: usize,
    pub order_buffer_size: usize,
    pub enable_trading: bool,
}

impl EngineConfig {
    /// Parameters sound and the event queue a usable size.
    pub open spec fn wf(&self) -> bool {
        &&& self.strategy.wf()
        &&& self.risk.wf()
        &&& is_pow2(self.tick_buffer_size as int)
        &&& 2 <= self.tick_buffer_size <= usize::MAX / 2
    }
}

impl Default for EngineConfig {
    /// Paper-safe defaults on the major pair.
    fn default() -> (r: EngineConfig)
        ensures
            r.wf(),
            r.symbol.0@ == "BTCUSDT"@,
            !r.enable_trading,
            r.tick_buffer_size == 65536,
    {
        proof {
            assert(is_pow2(65536int)) by {
                reveal_with_fuel(crate::queue::is_pow2, 20);
            }
        }
        EngineConfig {
            symbol: Symbol::new("BTCUSDT"),
            exchange: "binance".to_owned(),
            strategy: MarketMakerParams::default(),
            risk: RiskLimits::default(),
            tick_buffer_size: 65536,
            order_buffer_size: 8192,
            enable_trading: false,
        }
    }
}

/// Events the engine consumes.
#[derive(Debug, Clone)]
pub enum EngineEvent {
    Tick(Tick),
    OrderUpdate(Order),
    Trade(Trade),
    Shutdown,
}

/// Counters the engine reports.
#[derive(Debug, Clone)]
pub struct EngineStats {
    pub ticks_processed: u64,
    pub orders_sent: u64,
    pub trades_executed: u64,
}

/// The quoting strategy an engine runs, as a tagged choice.
pub enum EngineStrategy {
    Basic(BasicMarketMaker),
    AvellanedaStoikov(AvellanedaStoikovMM),
}

impl EngineStrategy {
    /// The held strategy's own invariant.
    pub open spec fn wf(&self) -> bool {
        match *self {
            EngineStrategy::Basic(ref s) => s.wf(),
            EngineStrategy::AvellanedaStoikov(ref s) => s.wf(),
        }
    }

    /// The held strategy's parameters.
    pub open spec fn spec_params(&self) -> MarketMakerParams {
        match *self {
            EngineStrategy::Basic(ref s) => s.params,
            EngineStrategy::AvellanedaStoikov(ref s) => s.base.params,
        }
    }

    /// Whether the held strategy quotes.
    pub open spec fn spec_enabled(&self) -> bool {
        match *self {
            EngineStrategy::Basic(ref s) => s.enabled,
            EngineStrategy::AvellanedaStoikov(ref s) => s.base.enabled,
        }
    }

    /// Ask the held strategy for quotes. A disabled strategy never wants
    /// to quote.
    pub fn compute_quotes(&mut self, book: &OrderBook, position: i64, signal: &Signal) -> (r:
        QuoteDecision)
        requires
            old(self).wf(),
            book.wf(),
            signal.wf(),
            crate::types::valid_position(position as int),
            old(self).spec_params().max_position != 0 ==> -old(self).spec_params().max_position
                <= position <= old(self).spec_params().max_position,
        ensures
            final(self).wf(),
            final(self).spec_params() == old(self).spec_params(),
            final(self).spec_enabled() == old(self).spec_enabled(),
            !old(self).spec_enabled() ==> !r.should_quote,
    {
        match self {
            EngineStrategy::Basic(s) => s.compute_quotes(book, position, signal),
            EngineStrategy::AvellanedaStoikov(s) => s.compute_quotes(book, position, signal),
        }
    }

    /// What a cancel does to the held strategy: the underlying maker
    /// forgets whichever active quote the id names.
    pub open spec fn spec_on_cancel(self, order_id: OrderId) -> EngineStrategy {
        match self {
            EngineStrategy::Basic(b) => EngineStrategy::Basic(spec_basic_on_cancel(b, order_id)),
            EngineStrategy::AvellanedaStoikov(a) => EngineStrategy::AvellanedaStoikov(
                AvellanedaStoikovMM { base: spec_basic_on_cancel(a.base, order_id), ..a },
            ),
        }
    }

    /// Tell the held strategy one of its orders was cancelled.
    pub fn on_cancel(&mut self, order_id: OrderId)
        requires
            old(self).wf(),
        ensures
            final(self).wf(),
            *final(self) == old(self).spec_on_cancel(order_id),
    {
        match self {
            EngineStrategy::Basic(s) => s.on_cancel(order_id),
            EngineStrategy::AvellanedaStoikov(s) => s.on_cancel(order_id),
        }
    }

    /// Turn the held strategy on or off.
    pub fn set_enabled(&mut self, enabled: bool)
        requires
            old(self).wf(),
        ensures
            final(self).wf(),
            final(self).spec_enabled() == enabled,
            final(self).spec_params() == old(self).spec_params(),
    {
        match self {
            EngineStrategy::Basic(s) => s.set_enabled(enabled),
            EngineStrategy::AvellanedaStoikov(s) => s.set_enabled(enabled),
        }
    }
}

/// The engine: book, strategy and risk wired together behind one event
/// queue.
pub struct TradingEngine {
    pub config: EngineConfig,
    pub orderbook: OrderBook,
    pub strategy: EngineStrategy,
    pub risk_manager: RiskManager,
    pub running: bool,
    pub trading_enabled: bool,
    pub order_id_counter: u64,
    pub ticks_processed: u64,
    pub orders_sent: u64,
    pub trades_executed: u64,
    pub events: SpscQueue<EngineEvent>,
}

impl TradingEngine {
    /// Invariant over every component.
    pub open spec fn wf(&self) -> bool {
        &&& self.config.wf()
        &&& self.orderbook.wf()
        &&& self.strategy.wf()
        &&& self.risk_manager.wf()
        &&& self.events.wf()
    }

    /// A stopped engine with an empty book, the basic strategy, and a
    /// fresh risk manager.
    pub fn new(config: EngineConfig) -> (r: TradingEngine)
        requires
            config.wf(),
        ensures
            r.wf(),
            !r.running,
            !r.trading_enabled,
            r.order_id_counter == 1,
            r.ticks_processed == 0 && r.orders_sent == 0 && r.trades_executed == 0,
            r.events.items() =~= Seq::<EngineEvent>::empty(),
    {
        let orderbook = OrderBook::new(config.symbol.duplicate());
        let risk_manager = RiskManager::new(config.risk.clone());
        let strategy = EngineStrategy::Basic(BasicMarketMaker::new(config.strategy.clone()));
        let events = SpscQueue::new(config.tick_buffer_size);
        TradingEngine {
            config,
            orderbook,
            strategy,
            risk_manager,
            running: false,
            trading_enabled: false,
            order_id_counter: 1,
            ticks_processed: 0,
            orders_sent: 0,
            trades_executed: 0,
            events,
        }
    }

    /// The same engine with another strategy.
    pub fn with_strategy(self, strategy: EngineStrategy) -> (r: TradingEngine)
        requires
            self.wf(),
            strategy.wf(),
        ensures
            r.wf(),
            r.strategy == strategy,
            r.running == self.running,
    {
        TradingEngine { strategy, ..self }
    }

    /// Start: mark the engine running and apply the configured trading
    /// switch. Idempotent while already running.
    pub fn start(&mut self)
        requires
            old(self).wf(),
        ensures
            final(self).wf(),
            final(self).running,
            old(self).running ==> *final(self) == *old(self),
            !old(self).running ==> final(self).trading_enabled == old(self).config.enable_trading,
    {
        if self.running {
            return;
        }
        self.running = true;
        if self.config.enable_trading {
            self.trading_enabled = true;
        } else {
            self.trading_enabled = false;
        }
    }

    /// Stop: disable trading, queue a shutdown for the driver loop, and
    /// mark the engine stopped. Idempotent while already stopped.
    pub fn stop(&mut self)
        requires
            old(self).wf(),
        ensures
            final(self).wf(),
            !final(self).running || old(self).running == false,
            old(self).running ==> !final(self).running && !final(self).trading_enabled,
            (old(self).running && old(self).events.spec_len() < old(self).events.capacity - 1)
                ==> final(self).events.items() =~= old(self).events.items().push(
                EngineEvent::Shutdown,
            ),
    {
        if !self.running {
            return;
        }
        self.trading_enabled = false;
        let _ = self.events.try_push(EngineEvent::Shutdown);
        self.running = false;
    }

    /// Queue a market-data tick; a full queue drops it.
    pub fn on_tick(&mut self, tick: Tick)
        requires
            old(self).wf(),
        ensures
            final(self).wf(),
            old(self).events.spec_len() < old(self).events.capacity - 1
                ==> final(self).events.items() =~= old(self).events.items().push(
                EngineEvent::Tick(tick),
            ),
    {
        let _ = self.events.try_push(EngineEvent::Tick(tick));
    }

    /// Queue an order update; a full queue drops it.
    pub fn on_order_update(&mut self, order: Order)
        requires
            old(self).wf(),
        ensures
            final(self).wf(),
            old(self).events.spec_len() < old(self).events.capacity - 1
                ==> final(self).events.items() =~= old(self).events.items().push(
                EngineEvent::OrderUpdate(order),
            ),
    {
        let _ = self.events.try_push(EngineEvent::OrderUpdate(order));
    }

    /// Queue a trade; a full queue drops it.
    pub fn on_trade(&mut self, trade: Trade)
        requires
            old(self).wf(),
        ensures
            final(self).wf(),
            old(self).events.spec_len() < old(self).events.capacity - 1
                ==> final(self).events.items() =~= old(self).events.items().push(
                EngineEvent::Trade(trade),
            ),
    {
        let _ = self.events.try_push(EngineEvent::Trade(trade));
    }

    /// Consume one queued event. Returns `false` exactly when the event
    /// was a shutdown, which also stops the engine; an empty queue is a
    /// quiet `true` (the driver sleeps and retries).
    ///
    /// A tick with admissible prices overwrites both inside levels; a
    /// trade with admissible numbers is counted and folded into the risk
    /// position; out-of-band values are dropped rather than let anywhere
    /// near the book.
    pub fn process_next(&mut self) -> (r: bool)
        requires
            old(self).wf(),
        ensures
            final(self).wf(),
            old(self).events.spec_len() == 0 ==> r && *final(self) == *old(self),
            old(self).events.spec_len() > 0 ==> final(self).events.items() =~= old(
                self,
            ).events.items().drop_first(),
            old(self).events.spec_len() > 0 ==> ({
                let ev = old(self).events.items()[0];
                &&& (ev is Shutdown) ==> !r && !final(self).running
                &&& !(ev is Shutdown) ==> r
                &&& (ev is Tick) ==> final(self).ticks_processed == crate::strategy::spec_wrap64(
                    old(self).ticks_processed,
                )
                &&& (ev is Tick) ==> ({
                    let t = ev->Tick_0;
                    &&& (0 < t.bid <= VALUE_LIMIT && 0 <= t.bid_qty <= VALUE_LIMIT)
                        ==> crate::ladder::qty_at(final(self).orderbook.bids.levels@, t.bid)
                        == t.bid_qty
                    &&& (0 < t.ask <= VALUE_LIMIT && 0 <= t.ask_qty <= VALUE_LIMIT)
                        ==> crate::ladder::qty_at(final(self).orderbook.asks.levels@, t.ask)
                        == t.ask_qty
                })
                &&& (ev is Trade) ==> final(self).trades_executed == crate::strategy::spec_wrap64(
                    old(self).trades_executed,
                )
                &&& (ev is OrderUpdate) ==> final(self).strategy == (if ev->OrderUpdate_0.status
                    == crate::types::OrderStatus::Canceled {
                    old(self).strategy.spec_on_cancel(ev->OrderUpdate_0.id)
                } else {
                    old(self).strategy
                })
                &&& (ev is Trade) ==> ({
                    let t = ev->Trade_0;
                    let q0 = old(self).risk_manager.position.quantity;
                    let admissible = 0 < t.quantity <= VALUE_LIMIT && 0 < t.price <= VALUE_LIMIT
                        && -VALUE_LIMIT + t.quantity <= q0 && q0 <= VALUE_LIMIT - t.quantity;
                    &&& admissible ==> ({
                        let f = spec_fill(
                            q0 as int,
                            old(self).risk_manager.position.avg_price as int,
                            t.side,
                            t.quantity as int,
                            t.price as int,
                        );
                        &&& final(self).risk_manager.position.quantity == f.0
                        &&& final(self).risk_manager.position.avg_price == f.1
                        &&& final(self).risk_manager.daily_realized_pnl == spec_sat128(
                            old(self).risk_manager.daily_realized_pnl + f.2,
                        )
                    })
                    &&& !admissible ==> final(self).risk_manager == old(self).risk_manager
                })
            }),
    {
        let event = match self.events.try_pop() {
            Some(ev) => ev,
            None => {
                return true;
            },
        };
        match event {
            EngineEvent::Tick(tick) => {
                if 0 < tick.bid && tick.bid <= VALUE_LIMIT && 0 <= tick.bid_qty && tick.bid_qty
                    <= VALUE_LIMIT {
                    self.orderbook.update_bid(tick.bid, tick.bid_qty);
                }
                if 0 < tick.ask && tick.ask <= VALUE_LIMIT && 0 <= tick.ask_qty && tick.ask_qty
                    <= VALUE_LIMIT {
                    self.orderbook.update_ask(tick.ask, tick.ask_qty);
                }
                self.ticks_processed = crate::fixed::wrap_inc(self.ticks_processed);
                if self.trading_enabled {
                    let position = self.risk_manager.get_position();
                    let fair_value = match self.orderbook.mid_price() {
                        Some(m) => m,
                        None => 0,
                    };
                    let signal = Signal {
                        fair_value,
                        volatility: 0,
                        momentum: 0,
                        inventory_pressure: 0,
                        timestamp: now_nanos(),
                    };
                    let p = match &self.strategy {
                        EngineStrategy::Basic(s) => s.params.max_position,
                        EngineStrategy::AvellanedaStoikov(s) => s.base.params.max_position,
                    };
                    let in_band = if p == 0 {
                        true
                    } else {
                        -p <= position && position <= p
                    };
                    if in_band {
                        let decision = self.strategy.compute_quotes(
                            &self.orderbook,
                            position,
                            &signal,
                        );
                        if decision.should_quote {
                            // Order dispatch belongs to the venue adapter
                            // around this library.
                        }
                    }
                }
                true
            },
            EngineEvent::OrderUpdate(order) => {
                match order.status {
                    crate::types::OrderStatus::Canceled => {
                        self.strategy.on_cancel(order.id);
                    },
                    _ => {},
                }
                true
            },
            EngineEvent::Trade(trade) => {
                self.trades_executed = crate::fixed::wrap_inc(self.trades_executed);
                let q0 = self.risk_manager.get_position();
                if 0 < trade.quantity && trade.quantity <= VALUE_LIMIT && 0 < trade.price
                    && trade.price <= VALUE_LIMIT && -VALUE_LIMIT + trade.quantity <= q0 && q0
                    <= VALUE_LIMIT - trade.quantity {
                    let order = Order::new(
                        trade.symbol,
                        trade.side,
                        crate::types::OrderType::Limit,
                        trade.price,
                        trade.quantity,
                    );
                    self.risk_manager.on_fill(&order, trade.quantity, trade.price);
                }
                true
            },
            EngineEvent::Shutdown => {
                self.running = false;
                false
            },
        }
    }

    /// Allow quoting.
    pub fn enable_trading(&mut self)
        ensures
            *final(self) == (TradingEngine { trading_enabled: true, ..*old(self) }),
    {
        self.trading_enabled = true;
    }

    /// Forbid quoting.
    pub fn disable_trading(&mut self)
        ensures
            *final(self) == (TradingEngine { trading_enabled: false, ..*old(self) }),
    {
        self.trading_enabled = false;
    }

    /// Whether the engine is running.
    pub fn is_running(&self) -> (r: bool)
        ensures
            r == self.running,
    {
        self.running
    }

    /// Whether quoting is allowed.
    pub fn is_trading_enabled(&self) -> (r: bool)
        ensures
            r == self.trading_enabled,
    {
        self.trading_enabled
    }

    /// A fresh order id: the counter's value, which then steps.
    pub fn next_order_id(&mut self) -> (r: OrderId)
        ensures
            r == old(self).order_id_counter,
            *final(self) == (TradingEngine {
                order_id_counter: crate::strategy::spec_wrap64(old(self).order_id_counter),
                ..*old(self)
            }),
    {
        let id = self.order_id_counter;
        self.order_id_counter = crate::fixed::wrap_inc(self.order_id_counter);
        id
    }

    /// The engine's book.
    pub fn orderbook(&self) -> (r: &OrderBook)
        ensures
            r == &self.orderbook,
    {
        &self.orderbook
    }

    /// The engine's risk manager.
    pub fn risk_manager(&self) -> (r: &RiskManager)
        ensures
            r == &self.risk_manager,
    {
        &self.risk_manager
    }

    /// The engine's counters.
    pub fn stats(&self) -> (r: EngineStats)
        ensures
            r.ticks_processed == self.ticks_processed,
            r.orders_sent == self.orders_sent,
            r.trades_executed == self.trades_executed,
    {
        EngineStats {
            ticks_processed: self.ticks_processed,
            orders_sent: self.orders_sent,
            trades_executed: self.trades_executed,
        }
    }
}

// ============================================================================
// Builder
// ============================================================================

/// Step-by-step engine configuration.
pub struct EngineBuilder {
    pub config: EngineConfig,
}

impl EngineBuilder {
    /// Start from the defaults.
    pub fn new() -> (r: EngineBuilder)
        ensures
            r.config.wf(),
    {
        EngineBuilder { config: EngineConfig::default() }
    }

    /// Set the traded symbol.
    pub fn symbol(self, symbol: Symbol) -> (r: EngineBuilder)
        ensures
            r.config == (EngineConfig { symbol, ..self.config }),
    {
        let mut config = self.config;
        config.symbol = symbol;
        EngineBuilder { config }
    }

    /// Name the venue.
    pub fn exchange(self, exchange: String) -> (r: EngineBuilder)
        ensures
            r.config == (EngineConfig { exchange, ..self.config }),
    {
        let mut config = self.config;
        config.exchange = exchange;
        EngineBuilder { config }
    }

    /// Set the strategy parameters.
    pub fn strategy_params(self, params: MarketMakerParams) -> (r: EngineBuilder)
        ensures
            r.config == (EngineConfig { strategy: params, ..self.config }),
    {
        let mut config = self.config;
        config.strategy = params;
        EngineBuilder { config }
    }

    /// Set the risk limits.
    pub fn risk_limits(self, limits: RiskLimits) -> (r: EngineBuilder)
        ensures
            r.config == (EngineConfig { risk: limits, ..self.config }),
    {
        let mut config = self.config;
        config.risk = limits;
        EngineBuilder { config }
    }

    /// Choose whether trading starts enabled.
    pub fn enable_trading(self, enabled: bool) -> (r: EngineBuilder)
        ensures
            r.config == (EngineConfig { enable_trading: enabled, ..self.config }),
    {
        let mut config = self.config;
        config.enable_trading = enabled;
        EngineBuilder { config }
    }

    /// Build the engine.
    pub fn build(self) -> (r: TradingEngine)
        requires
            self.config.wf(),
        ensures
            r.wf(),
            !r.running,
    {
        TradingEngine::new(self.config)
    }
}

impl Default for EngineBuilder {
    /// Same as `new`.
    fn default() -> (r: EngineBuilder)
        ensures
            r.config.wf(),
    {
        EngineBuilder::new()
    }
}

} // verus!
