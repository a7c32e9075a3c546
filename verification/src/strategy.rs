//! Quoting strategies: the inventory-skewed basic maker.
//!
//! All ratios (volatility, skew) and basis-point figures are fixed-point
//! integers at scale 10^8, like prices and quantities. The quote decision
//! of `compute_quotes_at` is a pure function of the strategy state, the
//! book's inside prices, the position, the signal and the given clock
//! reading; `compute_quotes` merely reads the wall clock and delegates.

use vstd::prelude::*;

use crate::book::OrderBook;
use crate::fixed::{clamp_spec, clamp_i64, div_trunc, div_wide, lemma_div_trunc_bound, mul_wide, wrap_inc};
use crate::types::{
    now_nanos, valid_position, valid_price, Order, OrderId, Price, Quantity, Side, Timestamp,
    VALUE_LIMIT,
};

verus! {

/// Largest admitted basis-point figure: 10^4 bps (100%) at scale 10^8.
pub const MAX_BPS: i64 = 1_000_000_000_000;

/// Largest admitted ratio: 100 at scale 10^8.
pub const MAX_RATIO: i64 = 10_000_000_000;

/// Divisor folding the two 10^8 scales and the basis-point denominator of
/// a skew product into one division.
pub const SKEW_DIV: i128 = 100_000_000_000_000_000_000;

/// Inputs a strategy may condition on, beyond the book.
#[derive(Debug, Clone, Copy)]
pub struct Signal {
    pub fair_value: i64,
    pub volatility: i64,
    pub momentum: i64,
    pub inventory_pressure: i64,
    pub timestamp: Timestamp,
}

impl Signal {
    /// Ratio bounds under which quoting arithmetic is exact.
    pub open spec fn wf(&self) -> bool {
        -MAX_RATIO <= self.volatility <= MAX_RATIO
    }
}

impl Default for Signal {
    /// A neutral signal.
    fn default() -> (r: Signal)
        ensures
            r.wf(),
            r == (Signal {
                fair_value: 0i64,
                volatility: 0i64,
                momentum: 0i64,
                inventory_pressure: 0i64,
                timestamp: 0u64,
            }),
    {
        Signal { fair_value: 0, volatility: 0, momentum: 0, inventory_pressure: 0, timestamp: 0 }
    }
}

/// What a strategy wants quoted, or why it declines.
#[derive(Debug, Clone)]
pub struct QuoteDecision {
    pub should_quote: bool,
    pub bid_price: Price,
    pub ask_price: Price,
    pub bid_size: Quantity,
    pub ask_size: Quantity,
    pub reason: String,
}

impl QuoteDecision {
    /// A declined quote carrying its reason.
    fn decline(reason: &str) -> (r: QuoteDecision)
        ensures
            !r.should_quote,
            r.bid_price == 0 && r.ask_price == 0 && r.bid_size == 0 && r.ask_size == 0,
            r.reason@ == reason@,
    {
        QuoteDecision {
            should_quote: false,
            bid_price: 0,
            ask_price: 0,
            bid_size: 0,
            ask_size: 0,
            reason: reason.to_owned(),
        }
    }
}

/// Market-making parameters; spreads in basis points and ratios at
/// fixed-point scale 10^8.
#[derive(Debug, Clone, Copy)]
pub struct MarketMakerParams {
    pub min_spread_bps: i64,
    pub max_spread_bps: i64,
    pub target_spread_bps: i64,
    pub max_position: Quantity,
    pub inventory_skew: i64,
    pub default_order_size: Quantity,
    pub min_order_size: Quantity,
    pub max_order_size: Quantity,
    pub quote_refresh_us: u64,
    pub min_quote_life_us: u64,
}

impl MarketMakerParams {
    /// Bounds under which quoting arithmetic is exact.
    pub open spec fn wf(&self) -> bool {
        &&& 0 <= self.min_spread_bps <= self.max_spread_bps <= MAX_BPS
        &&& 0 <= self.target_spread_bps <= MAX_BPS
        &&& 0 <= self.max_position <= VALUE_LIMIT
        &&& 0 <= self.inventory_skew <= MAX_RATIO
        &&& 0 <= self.default_order_size <= VALUE_LIMIT
        &&& 0 <= self.min_order_size <= self.max_order_size <= VALUE_LIMIT
        &&& self.min_quote_life_us <= 1_000_000_000_000
    }
}

impl Default for MarketMakerParams {
    /// Ten target basis points within [5, 50], milli-unit orders, half
    /// strength inventory skew.
    fn default() -> (r: MarketMakerParams)
        ensures
            r.wf(),
            r == (MarketMakerParams {
                min_spread_bps: 500_000_000i64,
                max_spread_bps: 5_000_000_000i64,
                target_spread_bps: 1_000_000_000i64,
                max_position: 100_000_000i64,
                inventory_skew: 50_000_000i64,
                default_order_size: 100_000i64,
                min_order_size: 10_000i64,
                max_order_size: 10_000_000i64,
                quote_refresh_us: 100_000u64,
                min_quote_life_us: 50_000u64,
            }),
    {
        MarketMakerParams {
            min_spread_bps: 500_000_000,
            max_spread_bps: 5_000_000_000,
            target_spread_bps: 1_000_000_000,
            max_position: 100_000_000,
            inventory_skew: 50_000_000,
            default_order_size: 100_000,
            min_order_size: 10_000,
            max_order_size: 10_000_000,
            quote_refresh_us: 100_000,
            min_quote_life_us: 50_000,
        }
    }
}

// ============================================================================
// Spec: the quoting formulas
// ============================================================================

/// Absolute value.
pub open spec fn abs_int(x: int) -> int {
    if x >= 0 {
        x
    } else {
        -x
    }
}

/// Target spread widened by volatility, clamped into the admitted band
/// (basis points at scale 10^8).
pub open spec fn spec_spread_bps(p: MarketMakerParams, sig: Signal) -> int {
    let widened = if sig.volatility > 0 {
        div_trunc(p.target_spread_bps * (crate::PRECISION + sig.volatility), crate::PRECISION as int)
    } else {
        p.target_spread_bps as int
    };
    clamp_spec(widened, p.min_spread_bps as int, p.max_spread_bps as int)
}

/// Position as a fraction of the allowed position (scale 10^8);
/// zero when no position limit is set.
pub open spec fn spec_skew(p: MarketMakerParams, position: int) -> int {
    if p.max_position == 0 {
        0
    } else {
        div_trunc(position * crate::PRECISION, p.max_position as int)
    }
}

/// Half the quoted spread in price units: `mid * bps / 20000`, with `bps`
/// at scale 10^8.
pub open spec fn spec_half_spread(mid: int, bps: int) -> int {
    div_trunc(mid * bps, 2 * crate::BPS_MUL as int)
}

/// Price shift that leans quotes away from the current inventory:
/// `mid * skew * inventory_skew / 10000`, both factors at scale 10^8.
pub open spec fn spec_skew_adj(mid: int, skew: int, inventory_skew: int) -> int {
    div_trunc(mid * skew * inventory_skew, SKEW_DIV as int)
}

/// What a cancel does to the basic maker: it forgets whichever active
/// quote the id names, and nothing else.
pub open spec fn spec_basic_on_cancel(b: BasicMarketMaker, order_id: OrderId) -> BasicMarketMaker {
    if order_id == b.active_bid_id {
        BasicMarketMaker { active_bid_id: 0u64, active_bid_price: 0i64, ..b }
    } else if order_id == b.active_ask_id {
        BasicMarketMaker { active_ask_id: 0u64, active_ask_price: 0i64, ..b }
    } else {
        b
    }
}

/// Order size for one side: the default, scaled down toward zero on the
/// side that would grow the position, clamped into the admitted band.
pub open spec fn spec_order_size(p: MarketMakerParams, side: Side, position: int) -> int {
    let scaled = if p.max_position > 0 {
        if side == Side::Buy && position > 0 {
            let ratio = crate::PRECISION - spec_skew(p, position);
            div_trunc(p.default_order_size * (if ratio >= 0 {
                ratio
            } else {
                0
            }), crate::PRECISION as int)
        } else if side == Side::Sell && position < 0 {
            let ratio = crate::PRECISION + spec_skew(p, position);
            div_trunc(p.default_order_size * (if ratio >= 0 {
                ratio
            } else {
                0
            }), crate::PRECISION as int)
        } else {
            p.default_order_size as int
        }
    } else {
        p.default_order_size as int
    };
    clamp_spec(scaled, p.min_order_size as int, p.max_order_size as int)
}

// ============================================================================
// The basic inventory-skewed market maker
// ============================================================================

/// Two-sided maker around the mid price, quotes shifted away from the
/// current inventory.
pub struct BasicMarketMaker {
    pub params: MarketMakerParams,
    pub enabled: bool,
    pub active_bid_id: OrderId,
    pub active_ask_id: OrderId,
    pub active_bid_price: Price,
    pub active_ask_price: Price,
    pub quotes_sent: u64,
    pub fills: u64,
    pub last_quote_time: Timestamp,
}

impl BasicMarketMaker {
    /// Parameters and tracked quote prices stay inside the bounds the
    /// arithmetic needs.
    pub open spec fn wf(&self) -> bool {
        &&& self.params.wf()
        &&& -3 * VALUE_LIMIT <= self.active_bid_price <= 3 * VALUE_LIMIT
        &&& -3 * VALUE_LIMIT <= self.active_ask_price <= 3 * VALUE_LIMIT
    }

    /// A disabled maker with no active quotes.
    pub fn new(params: MarketMakerParams) -> (r: BasicMarketMaker)
        requires
            params.wf(),
        ensures
            r.wf(),
            r.params == params,
            !r.enabled,
            r.active_bid_id == 0 && r.active_ask_id == 0,
            r.active_bid_price == 0 && r.active_ask_price == 0,
            r.quotes_sent == 0 && r.fills == 0 && r.last_quote_time == 0,
    {
        BasicMarketMaker {
            params,
            enabled: false,
            active_bid_id: 0,
            active_ask_id: 0,
            active_bid_price: 0,
            active_ask_price: 0,
            quotes_sent: 0,
            fills: 0,
            last_quote_time: 0,
        }
    }

    /// The quoted spread for this signal, in basis points at scale 10^8.
    fn calculate_spread(&self, signal: &Signal) -> (r: i64)
        requires
            self.wf(),
            signal.wf(),
        ensures
            r == spec_spread_bps(self.params, *signal),
    {
        let widened: i128 = if signal.volatility > 0 {
            div_wide(
                mul_wide(self.params.target_spread_bps, crate::PRECISION + signal.volatility),
                crate::PRECISION as i128,
            )
        } else {
            self.params.target_spread_bps as i128
        };
        proof {
            if signal.volatility > 0 {
                assert(self.params.target_spread_bps * (crate::PRECISION + signal.volatility)
                    <= ((MAX_BPS as int) * 101) * crate::PRECISION) by (nonlinear_arith)
                    requires
                        0 <= self.params.target_spread_bps <= MAX_BPS,
                        0 < crate::PRECISION + signal.volatility <= 101 * crate::PRECISION,
                ;
                assert(self.params.target_spread_bps * (crate::PRECISION + signal.volatility) >= 0)
                    by (nonlinear_arith)
                    requires
                        0 <= self.params.target_spread_bps,
                        0 < crate::PRECISION + signal.volatility,
                ;
                lemma_div_trunc_bound(
                    self.params.target_spread_bps * (crate::PRECISION + signal.volatility),
                    crate::PRECISION as int,
                    (MAX_BPS as int) * 101,
                );
            }
        }
        let w64: i64 = widened as i64;
        clamp_i64(w64, self.params.min_spread_bps, self.params.max_spread_bps)
    }

    /// Position as a fraction of the allowed position, at scale 10^8.
    fn calculate_inventory_skew(&self, position: Quantity) -> (r: i64)
        requires
            self.wf(),
            valid_position(position as int),
            self.params.max_position != 0 ==> -self.params.max_position <= position
                <= self.params.max_position,
        ensures
            r == spec_skew(self.params, position as int),
            -crate::PRECISION <= r <= crate::PRECISION,
    {
        if self.params.max_position == 0 {
            return 0;
        }
        proof {
            assert(-(self.params.max_position as int) * crate::PRECISION <= position as int
                * crate::PRECISION <= (self.params.max_position as int) * crate::PRECISION)
                by (nonlinear_arith)
                requires
                    -self.params.max_position <= position <= self.params.max_position,
                    crate::PRECISION > 0,
            ;
            assert((self.params.max_position as int) * crate::PRECISION == (crate::PRECISION as int)
                * self.params.max_position) by (nonlinear_arith);
            lemma_div_trunc_bound(
                position as int * crate::PRECISION,
                self.params.max_position as int,
                crate::PRECISION as int,
            );
        }
        let q = div_wide(mul_wide(position, crate::PRECISION), self.params.max_position as i128);
        q as i64
    }

    /// Order size for one side of the quote.
    fn calculate_order_size(&self, side: Side, position: Quantity) -> (r: Quantity)
        requires
            self.wf(),
            valid_position(position as int),
            self.params.max_position != 0 ==> -self.params.max_position <= position
                <= self.params.max_position,
        ensures
            r == spec_order_size(self.params, side, position as int),
    {
        let scaled: i64 = if self.params.max_position > 0 {
            let lean = match side {
                Side::Buy => position > 0,
                Side::Sell => position < 0,
            };
            if lean {
                let skew = self.calculate_inventory_skew(position);
                let ratio = match side {
                    Side::Buy => crate::PRECISION - skew,
                    Side::Sell => crate::PRECISION + skew,
                };
                let ratio = if ratio >= 0 {
                    ratio
                } else {
                    0
                };
                proof {
                    assert(0 <= self.params.default_order_size * ratio <= (VALUE_LIMIT as int) * (2
                        * crate::PRECISION)) by (nonlinear_arith)
                        requires
                            0 <= self.params.default_order_size <= VALUE_LIMIT,
                            0 <= ratio <= 2 * crate::PRECISION,
                    ;
                    lemma_div_trunc_bound(
                        self.params.default_order_size * ratio,
                        crate::PRECISION as int,
                        2 * VALUE_LIMIT as int,
                    );
                    assert((2 * VALUE_LIMIT as int) * crate::PRECISION == (VALUE_LIMIT as int) * (2
                        * crate::PRECISION)) by (nonlinear_arith);
                }
                div_wide(mul_wide(self.params.default_order_size, ratio), crate::PRECISION as i128)
                    as i64
            } else {
                self.params.default_order_size
            }
        } else {
            self.params.default_order_size
        };
        clamp_i64(scaled, self.params.min_order_size, self.params.max_order_size)
    }

    /// The bid this maker would place at mid `m`.
    pub open spec fn spec_bid(&self, m: int, position: int, sig: Signal) -> int {
        m - spec_half_spread(m, spec_spread_bps(self.params, sig)) - spec_skew_adj(
            m,
            spec_skew(self.params, position),
            self.params.inventory_skew as int,
        )
    }

    /// The ask this maker would place at mid `m`.
    pub open spec fn spec_ask(&self, m: int, position: int, sig: Signal) -> int {
        m + spec_half_spread(m, spec_spread_bps(self.params, sig)) - spec_skew_adj(
            m,
            spec_skew(self.params, position),
            self.params.inventory_skew as int,
        )
    }

    /// Whether fresh prices are close enough to the active quotes, within
    /// the minimum quote lifetime, to skip re-quoting.
    pub open spec fn spec_throttled(&self, bid: int, ask: int, m: int, now: u64) -> bool {
        let elapsed = if now >= self.last_quote_time {
            now - self.last_quote_time
        } else {
            0
        };
        &&& elapsed < self.params.min_quote_life_us * 1000
        &&& abs_int(bid - self.active_bid_price) < m / 10000
        &&& abs_int(ask - self.active_ask_price) < m / 10000
    }

    /// Decide both quotes against the book at clock reading `now`.
    ///
    /// The decision is a pure function of the maker's state, the book's
    /// validity and mid price, the position, the signal and `now`: prices
    /// sit half the spread either side of the mid, both shifted against
    /// the inventory; it declines when disabled, on an invalid or empty
    /// book, on crossed prices, on two zero sizes, or within the quote
    /// lifetime while prices moved less than one basis point of the mid.
    pub fn compute_quotes_at(
        &mut self,
        book: &OrderBook,
        position: Quantity,
        signal: &Signal,
        now: u64,
    ) -> (r: QuoteDecision)
        requires
            old(self).wf(),
            book.wf(),
            signal.wf(),
            valid_position(position as int),
            old(self).params.max_position != 0 ==> -old(self).params.max_position <= position
                <= old(self).params.max_position,
        ensures
            final(self).wf(),
            final(self).params == old(self).params,
            final(self).enabled == old(self).enabled,
            final(self).fills == old(self).fills,
            !old(self).enabled ==> !r.should_quote && *final(self) == *old(self)
                && r.reason@ == "Strategy disabled"@,
            old(self).enabled && !book.spec_is_valid() ==> !r.should_quote && *final(self) == *old(
                self,
            ) && r.reason@ == "Invalid orderbook"@,
            old(self).enabled && book.spec_is_valid() && book.spec_mid_price() is None
                ==> !r.should_quote && *final(self) == *old(self) && r.reason@
                == "Cannot determine fair value"@,
            (old(self).enabled && book.spec_is_valid() && book.spec_mid_price() is Some) ==> ({
                let m = book.spec_mid_price()->Some_0 as int;
                let bid = old(self).spec_bid(m, position as int, *signal);
                let ask = old(self).spec_ask(m, position as int, *signal);
                let bsz = spec_order_size(old(self).params, Side::Buy, position as int);
                let asz = spec_order_size(old(self).params, Side::Sell, position as int);
                &&& r.bid_price == bid
                &&& r.ask_price == ask
                &&& bid >= ask ==> !r.should_quote && *final(self) == *old(self) && r.reason@
                    == "Prices would cross"@
                &&& bid < ask ==> {
                    &&& r.bid_size == bsz
                    &&& r.ask_size == asz
                    &&& (bsz == 0 && asz == 0) ==> !r.should_quote && *final(self) == *old(self)
                        && r.reason@ == "Order sizes are zero"@
                    &&& !(bsz == 0 && asz == 0) ==> {
                        &&& old(self).spec_throttled(bid, ask, m, now) ==> !r.should_quote
                            && *final(self) == *old(self) && r.reason@ == "Prices unchanged"@
                        &&& !old(self).spec_throttled(bid, ask, m, now) ==> r.should_quote
                            && r.reason@.len() == 0 && *final(self) == (BasicMarketMaker {
                            last_quote_time: now,
                            quotes_sent: spec_wrap64(old(self).quotes_sent),
                            ..*old(self)
                        })
                    }
                }
            }),
    {
        if !self.enabled {
            return QuoteDecision::decline("Strategy disabled");
        }
        if !book.is_valid() {
            return QuoteDecision::decline("Invalid orderbook");
        }
        let fair_value = match book.mid_price() {
            Some(fv) => fv,
            None => {
                return QuoteDecision::decline("Cannot determine fair value");
            },
        };
        let ghost m = fair_value as int;

        let spread_bps = self.calculate_spread(signal);
        proof {
            assert(0 < fair_value <= VALUE_LIMIT) by {
                assert(book.spec_is_valid());
                assert(valid_price(book.bids.levels@[0].price));
                assert(valid_price(book.asks.levels@[0].price));
            }
            assert(0 <= fair_value * spread_bps <= (VALUE_LIMIT as int) * (2 * crate::BPS_MUL))
                by (nonlinear_arith)
                requires
                    0 < fair_value <= VALUE_LIMIT,
                    0 <= spread_bps <= MAX_BPS,
                    2 * (MAX_BPS as int) <= 2 * crate::BPS_MUL,
            ;
            assert((VALUE_LIMIT as int) * (2 * crate::BPS_MUL) == (VALUE_LIMIT as int) * 2
                * crate::BPS_MUL) by (nonlinear_arith);
            lemma_div_trunc_bound(
                fair_value * spread_bps,
                2 * crate::BPS_MUL as int,
                VALUE_LIMIT as int,
            );
        }
        let half_spread = div_wide(mul_wide(fair_value, spread_bps), 2 * crate::BPS_MUL as i128)
            as i64;

        let skew = self.calculate_inventory_skew(position);
        proof {
            assert(-((VALUE_LIMIT as int) * crate::PRECISION * MAX_RATIO) <= fair_value as int
                * skew * self.params.inventory_skew <= (VALUE_LIMIT as int) * crate::PRECISION
                * MAX_RATIO) by (nonlinear_arith)
                requires
                    0 < fair_value <= VALUE_LIMIT,
                    -crate::PRECISION <= skew <= crate::PRECISION,
                    0 <= self.params.inventory_skew <= MAX_RATIO,
            ;
            assert((VALUE_LIMIT as int) * crate::PRECISION * MAX_RATIO <= (VALUE_LIMIT as int)
                * SKEW_DIV) by (nonlinear_arith);
            lemma_div_trunc_bound(
                fair_value as int * skew * self.params.inventory_skew,
                SKEW_DIV as int,
                VALUE_LIMIT as int,
            );
        }
        let t1 = mul_wide(fair_value, skew);
        proof {
            assert(-((VALUE_LIMIT as int) * crate::PRECISION) <= t1 <= (VALUE_LIMIT as int)
                * crate::PRECISION) by (nonlinear_arith)
                requires
                    0 < fair_value <= VALUE_LIMIT,
                    -crate::PRECISION <= skew <= crate::PRECISION,
                    t1 == fair_value as int * skew,
            ;
            assert(t1 * self.params.inventory_skew == fair_value as int * skew
                * self.params.inventory_skew) by (nonlinear_arith)
                requires
                    t1 == fair_value as int * skew,
            ;
            assert(-(0x8000_0000_0000_0000_0000_0000_0000_0000int) <= t1
                * self.params.inventory_skew < 0x8000_0000_0000_0000_0000_0000_0000_0000int)
                by (nonlinear_arith)
                requires
                    -((VALUE_LIMIT as int) * crate::PRECISION) <= t1 <= (VALUE_LIMIT as int)
                        * crate::PRECISION,
                    0 <= self.params.inventory_skew <= MAX_RATIO,
            ;
        }
        let t2 = t1 * (self.params.inventory_skew as i128);
        let skew_adjustment = div_wide(t2, SKEW_DIV) as i64;

        let bid_price = fair_value - half_spread - skew_adjustment;
        let ask_price = fair_value + half_spread - skew_adjustment;

        if bid_price >= ask_price {
            let mut d = QuoteDecision::decline("Prices would cross");
            d.bid_price = bid_price;
            d.ask_price = ask_price;
            return d;
        }

        let bid_size = self.calculate_order_size(Side::Buy, position);
        let ask_size = self.calculate_order_size(Side::Sell, position);

        if bid_size == 0 && ask_size == 0 {
            let mut d = QuoteDecision::decline("Order sizes are zero");
            d.bid_price = bid_price;
            d.ask_price = ask_price;
            return d;
        }

        let elapsed = if now >= self.last_quote_time {
            now - self.last_quote_time
        } else {
            0
        };
        if elapsed < self.params.min_quote_life_us * 1000 {
            let bid_diff = if bid_price >= self.active_bid_price {
                bid_price - self.active_bid_price
            } else {
                self.active_bid_price - bid_price
            };
            let ask_diff = if ask_price >= self.active_ask_price {
                ask_price - self.active_ask_price
            } else {
                self.active_ask_price - ask_price
            };
            let threshold = fair_value / 10000;
            if bid_diff < threshold && ask_diff < threshold {
                let mut d = QuoteDecision::decline("Prices unchanged");
                d.bid_price = bid_price;
                d.ask_price = ask_price;
                d.bid_size = bid_size;
                d.ask_size = ask_size;
                return d;
            }
        }

        self.last_quote_time = now;
        self.quotes_sent = wrap_inc(self.quotes_sent);
        QuoteDecision {
            should_quote: true,
            bid_price,
            ask_price,
            bid_size,
            ask_size,
            reason: String::new(),
        }
    }

    /// Decide both quotes against the book and the wall clock.
    pub fn compute_quotes(&mut self, book: &OrderBook, position: Quantity, signal: &Signal) -> (r:
        QuoteDecision)
        requires
            old(self).wf(),
            book.wf(),
            signal.wf(),
            valid_position(position as int),
            old(self).params.max_position != 0 ==> -old(self).params.max_position <= position
                <= old(self).params.max_position,
        ensures
            final(self).wf(),
            final(self).params == old(self).params,
            final(self).enabled == old(self).enabled,
            !old(self).enabled ==> !r.should_quote && *final(self) == *old(self)
                && r.reason@ == "Strategy disabled"@,
            old(self).enabled && !book.spec_is_valid() ==> !r.should_quote && r.reason@
                == "Invalid orderbook"@,
            (old(self).enabled && book.spec_is_valid() && book.spec_mid_price() is Some)
                ==> ({
                let m = book.spec_mid_price()->Some_0 as int;
                let bid = old(self).spec_bid(m, position as int, *signal);
                let ask = old(self).spec_ask(m, position as int, *signal);
                &&& r.bid_price == bid
                &&& r.ask_price == ask
                &&& bid >= ask ==> !r.should_quote && r.reason@ == "Prices would cross"@
                &&& r.should_quote ==> bid < ask && r.reason@.len() == 0 && r.bid_size
                    == spec_order_size(
                    old(self).params,
                    Side::Buy,
                    position as int,
                ) && r.ask_size == spec_order_size(old(self).params, Side::Sell, position as int)
            }),
    {
        let now = now_nanos();
        self.compute_quotes_at(book, position, signal, now)
    }
    pub fn on_fill(&mut self, _order: &Order, _filled_qty: Quantity, _fill_price: Price)
        ensures
            *final(self) == (BasicMarketMaker {
                fills: spec_wrap64(old(self).fills),
                ..*old(self)
            }),
    {
        self.fills = wrap_inc(self.fills);
    }

    /// Forget the active quote this cancel names.
    pub fn on_cancel(&mut self, order_id: OrderId)
        ensures
            *final(self) == spec_basic_on_cancel(*old(self), order_id),
    {
        if order_id == self.active_bid_id {
            self.active_bid_id = 0;
            self.active_bid_price = 0;
        } else if order_id == self.active_ask_id {
            self.active_ask_id = 0;
            self.active_ask_price = 0;
        }
    }

    /// Current parameters.
    pub fn params(&self) -> (r: &MarketMakerParams)
        ensures
            *r == self.params,
    {
        &self.params
    }

    /// Replace the parameters.
    pub fn update_params(&mut self, params: MarketMakerParams)
        requires
            params.wf(),
        ensures
            *final(self) == (BasicMarketMaker { params, ..*old(self) }),
    {
        self.params = params;
    }

    /// Turn quoting on or off.
    pub fn set_enabled(&mut self, enabled: bool)
        ensures
            *final(self) == (BasicMarketMaker { enabled, ..*old(self) }),
    {
        self.enabled = enabled;
    }

    /// Whether quoting is on.
    pub fn is_enabled(&self) -> (r: bool)
        ensures
            r == self.enabled,
    {
        self.enabled
    }
}

/// A counter one step on, wrapping at the top.
pub open spec fn spec_wrap64(x: u64) -> u64 {
    if x == u64::MAX {
        0u64
    } else {
        (x + 1) as u64
    }
}

// ============================================================================
// The Avellaneda-Stoikov optimal market maker
// ============================================================================

/// Fraction of the trading horizon still ahead, at scale 10^8: one minus
/// the fractional part of `elapsed / horizon`, floored at one percent.
/// The horizon wraps: each full horizon starts the clock over.
pub open spec fn spec_tau(elapsed_ns: int, horizon_ns: int) -> int {
    let frac = div_trunc(crate::PRECISION * (elapsed_ns % horizon_ns), horizon_ns);
    let tau = crate::PRECISION - frac;
    if tau < 1_000_000 {
        1_000_000int
    } else {
        tau
    }
}

/// Reservation price: the mid, shifted against the inventory by
/// `q * gamma * sigma^2 * tau` of itself (all factors at scale 10^8),
/// saturating at the 64-bit bounds.
pub open spec fn spec_reservation(mid: int, position: int, gamma: int, sigma: int, tau: int) -> int {
    let m1 = div_trunc(mid * position, crate::PRECISION as int);
    let m2 = div_trunc(m1 * gamma, crate::PRECISION as int);
    let m3 = div_trunc(m2 * sigma, crate::PRECISION as int);
    let m4 = div_trunc(m3 * sigma, crate::PRECISION as int);
    let m5 = div_trunc(m4 * tau, crate::PRECISION as int);
    clamp_spec(mid - m5, i64::MIN as int, i64::MAX as int)
}

/// Optimal spread in basis points at scale 10^8:
/// `(gamma * sigma^2 * tau + arrival term) * 10^4`, clamped into the
/// admitted band.
pub open spec fn spec_as_spread_bps(
    gamma: int,
    sigma: int,
    tau: int,
    intensity: int,
    min_bps: int,
    max_bps: int,
) -> int {
    let g1 = div_trunc(gamma * sigma, crate::PRECISION as int);
    let g2 = div_trunc(g1 * sigma, crate::PRECISION as int);
    let g3 = div_trunc(g2 * tau, crate::PRECISION as int);
    clamp_spec((g3 + intensity) * 10_000, min_bps, max_bps)
}

/// Market maker quoting around the Avellaneda-Stoikov reservation price
/// with the model's optimal spread.
///
/// `gamma` (risk aversion), `sigma` (volatility) and `intensity` are at
/// scale 10^8; `intensity` is the order-arrival term
/// `(2 / gamma) * ln(1 + gamma / k)` of the model, supplied by the caller
/// since its logarithm has no place in fixed-point code.
pub struct AvellanedaStoikovMM {
    pub base: BasicMarketMaker,
    pub gamma: i64,
    pub sigma: i64,
    pub intensity: i64,
    pub t_horizon_secs: u64,
    pub start_time: Timestamp,
}

impl AvellanedaStoikovMM {
    /// Model parameters inside the bounds the arithmetic needs.
    pub open spec fn wf(&self) -> bool {
        &&& self.base.wf()
        &&& 0 <= self.gamma <= MAX_RATIO
        &&& 0 <= self.sigma <= 2 * crate::PRECISION
        &&& 0 <= self.intensity <= MAX_RATIO
        &&& 1 <= self.t_horizon_secs <= 1_000_000_000
    }

    /// A disabled maker; the horizon clock starts on the first signal.
    pub fn new(
        params: MarketMakerParams,
        gamma: i64,
        sigma: i64,
        intensity: i64,
        t_horizon_secs: u64,
    ) -> (r: AvellanedaStoikovMM)
        requires
            params.wf(),
            0 <= gamma <= MAX_RATIO,
            0 <= sigma <= 2 * crate::PRECISION,
            0 <= intensity <= MAX_RATIO,
            1 <= t_horizon_secs <= 1_000_000_000,
        ensures
            r.wf(),
            r.base.params == params,
            !r.base.enabled,
            r.gamma == gamma && r.sigma == sigma && r.intensity == intensity,
            r.t_horizon_secs == t_horizon_secs,
            r.start_time == 0,
    {
        AvellanedaStoikovMM {
            base: BasicMarketMaker::new(params),
            gamma,
            sigma,
            intensity,
            t_horizon_secs,
            start_time: 0,
        }
    }

    /// The bid this maker would place at mid `m` with time fraction `tau`
    /// left.
    pub open spec fn spec_bid(&self, m: int, position: int, tau: int) -> int {
        let r = spec_reservation(m, position, self.gamma as int, self.sigma as int, tau);
        let bps = spec_as_spread_bps(
            self.gamma as int,
            self.sigma as int,
            tau,
            self.intensity as int,
            self.base.params.min_spread_bps as int,
            self.base.params.max_spread_bps as int,
        );
        clamp_spec(r - spec_half_spread(m, bps), i64::MIN as int, i64::MAX as int)
    }

    /// The ask this maker would place at mid `m` with time fraction `tau`
    /// left.
    pub open spec fn spec_ask(&self, m: int, position: int, tau: int) -> int {
        let r = spec_reservation(m, position, self.gamma as int, self.sigma as int, tau);
        let bps = spec_as_spread_bps(
            self.gamma as int,
            self.sigma as int,
            tau,
            self.intensity as int,
            self.base.params.min_spread_bps as int,
            self.base.params.max_spread_bps as int,
        );
        clamp_spec(r + spec_half_spread(m, bps), i64::MIN as int, i64::MAX as int)
    }

    /// Nanoseconds of horizon already elapsed at this signal (zero before
    /// the clock starts or if the signal predates it).
    pub open spec fn spec_elapsed(&self, sig: Signal) -> int {
        let start = if self.start_time == 0 {
            sig.timestamp
        } else {
            self.start_time
        };
        if sig.timestamp >= start {
            sig.timestamp - start
        } else {
            0
        }
    }

    /// Decide both quotes around the reservation price.
    ///
    /// The decision is a pure function of the maker's state, the book's
    /// validity and mid price, the position and the signal (whose
    /// timestamp drives the horizon clock).
    pub fn compute_quotes(&mut self, book: &OrderBook, position: Quantity, signal: &Signal) -> (r:
        QuoteDecision)
        requires
            old(self).wf(),
            book.wf(),
            signal.wf(),
            valid_position(position as int),
            old(self).base.params.max_position != 0 ==> -old(self).base.params.max_position
                <= position <= old(self).base.params.max_position,
        ensures
            final(self).wf(),
            final(self).base.params == old(self).base.params,
            final(self).base.enabled == old(self).base.enabled,
            (!old(self).base.enabled || !book.spec_is_valid()) ==> !r.should_quote && *final(self)
                == *old(self) && r.reason@ == "Disabled or invalid book"@,
            (old(self).base.enabled && book.spec_is_valid()) ==> final(self).start_time == (
            if old(self).start_time == 0 {
                signal.timestamp
            } else {
                old(self).start_time
            }),
            (old(self).base.enabled && book.spec_is_valid() && book.spec_mid_price() is None)
                ==> !r.should_quote && r.reason@ == "No mid price"@,
            (old(self).base.enabled && book.spec_is_valid() && book.spec_mid_price() is Some)
                ==> ({
                let m = book.spec_mid_price()->Some_0 as int;
                let tau = spec_tau(
                    old(self).spec_elapsed(*signal),
                    old(self).t_horizon_secs * 1_000_000_000,
                );
                let bid = old(self).spec_bid(m, position as int, tau);
                let ask = old(self).spec_ask(m, position as int, tau);
                &&& r.bid_price == bid
                &&& r.ask_price == ask
                &&& bid >= ask ==> !r.should_quote && r.reason@ == "Prices would cross"@
                &&& bid < ask ==> {
                    let bsz = spec_order_size(old(self).base.params, Side::Buy, position as int);
                    let asz = spec_order_size(old(self).base.params, Side::Sell, position as int);
                    &&& r.bid_size == bsz
                    &&& r.ask_size == asz
                    &&& r.should_quote == (bsz > 0 || asz > 0)
                    &&& r.reason@.len() == 0
                }
            }),
    {
        let valid = book.is_valid();
        if !self.base.enabled || !valid {
            return QuoteDecision::decline("Disabled or invalid book");
        }
        if self.start_time == 0 {
            self.start_time = signal.timestamp;
        }
        let elapsed: u64 = if signal.timestamp >= self.start_time {
            signal.timestamp - self.start_time
        } else {
            0
        };
        let mid = match book.mid_price() {
            Some(m) => m,
            None => {
                return QuoteDecision::decline("No mid price");
            },
        };
        proof {
            assert(0 < mid <= VALUE_LIMIT) by {
                assert(valid_price(book.bids.levels@[0].price));
                assert(valid_price(book.asks.levels@[0].price));
            }
        }

        let horizon_ns: u64 = self.t_horizon_secs * 1_000_000_000;
        let rem: u64 = elapsed % horizon_ns;
        proof {
            assert(crate::PRECISION * (rem as int) <= crate::PRECISION * (horizon_ns as int))
                by (nonlinear_arith)
                requires
                    0 <= rem <= horizon_ns,
                    crate::PRECISION > 0,
            ;
            lemma_div_trunc_bound(
                crate::PRECISION * (rem as int),
                horizon_ns as int,
                crate::PRECISION as int,
            );
        }
        let frac = div_wide(mul_wide(crate::PRECISION, rem as i64), horizon_ns as i128) as i64;
        let tau_raw = crate::PRECISION - frac;
        let tau: i64 = if tau_raw < 1_000_000 {
            1_000_000
        } else {
            tau_raw
        };
        proof {
            assert(rem < horizon_ns) by (nonlinear_arith)
                requires
                    rem == (elapsed as int) % (horizon_ns as int),
                    horizon_ns > 0,
            ;
            assert(tau == spec_tau(elapsed as int, horizon_ns as int));
        }

        // Reservation price: mid shifted by q * gamma * sigma^2 * tau of
        // itself, each factor folded in at scale 10^8.
        let p0 = mul_wide(mid, position);
        proof {
            assert(-(100_000_000_000_000_000_000_000_000int) * crate::PRECISION <= p0
                <= 100_000_000_000_000_000_000_000_000int * crate::PRECISION) by (nonlinear_arith)
                requires
                    0 < mid <= VALUE_LIMIT,
                    -VALUE_LIMIT <= position <= VALUE_LIMIT,
                    p0 == mid as int * position,
            ;
        }
        let m1 = Self::ratio_step(p0, 100_000_000_000_000_000_000_000_000);
        proof {
            assert(-(10_000_000_000_000_000_000_000_000_000int) * crate::PRECISION <= m1 as int
                * self.gamma <= 10_000_000_000_000_000_000_000_000_000int * crate::PRECISION)
                by (nonlinear_arith)
                requires
                    -100_000_000_000_000_000_000_000_000int <= m1
                        <= 100_000_000_000_000_000_000_000_000int,
                    0 <= self.gamma <= MAX_RATIO,
            ;
        }
        let m2 = Self::ratio_step_mul(m1, self.gamma, 10_000_000_000_000_000_000_000_000_000);
        proof {
            assert(-(20_000_000_000_000_000_000_000_000_000int) * crate::PRECISION <= m2 as int
                * self.sigma <= 20_000_000_000_000_000_000_000_000_000int * crate::PRECISION)
                by (nonlinear_arith)
                requires
                    -10_000_000_000_000_000_000_000_000_000int <= m2
                        <= 10_000_000_000_000_000_000_000_000_000int,
                    0 <= self.sigma <= 2 * crate::PRECISION,
            ;
        }
        let m3 = Self::ratio_step_mul(m2, self.sigma, 20_000_000_000_000_000_000_000_000_000);
        proof {
            assert(-(40_000_000_000_000_000_000_000_000_000int) * crate::PRECISION <= m3 as int
                * self.sigma <= 40_000_000_000_000_000_000_000_000_000int * crate::PRECISION)
                by (nonlinear_arith)
                requires
                    -20_000_000_000_000_000_000_000_000_000int <= m3
                        <= 20_000_000_000_000_000_000_000_000_000int,
                    0 <= self.sigma <= 2 * crate::PRECISION,
            ;
        }
        let m4 = Self::ratio_step_mul(m3, self.sigma, 40_000_000_000_000_000_000_000_000_000);
        proof {
            assert(-(40_000_000_000_000_000_000_000_000_000int) * crate::PRECISION <= m4 as int
                * tau <= 40_000_000_000_000_000_000_000_000_000int * crate::PRECISION)
                by (nonlinear_arith)
                requires
                    -40_000_000_000_000_000_000_000_000_000int <= m4
                        <= 40_000_000_000_000_000_000_000_000_000int,
                    0 <= tau <= crate::PRECISION,
            ;
        }
        let m5 = Self::ratio_step_mul(m4, tau, 40_000_000_000_000_000_000_000_000_000);
        let reservation = crate::fixed::sat_i64(mid as i128 - m5);

        // Optimal spread in basis points at scale 10^8.
        let q0 = mul_wide(self.gamma, self.sigma);
        proof {
            assert(-(20_000_000_000int) * crate::PRECISION <= q0 <= 20_000_000_000int
                * crate::PRECISION) by (nonlinear_arith)
                requires
                    0 <= self.gamma <= MAX_RATIO,
                    0 <= self.sigma <= 2 * crate::PRECISION,
                    q0 == self.gamma as int * self.sigma,
            ;
        }
        let g1 = Self::ratio_step(q0, 20_000_000_000);
        proof {
            assert(-(40_000_000_000int) * crate::PRECISION <= g1 as int * self.sigma
                <= 40_000_000_000int * crate::PRECISION) by (nonlinear_arith)
                requires
                    -20_000_000_000int <= g1 <= 20_000_000_000int,
                    0 <= self.sigma <= 2 * crate::PRECISION,
            ;
        }
        let g2 = Self::ratio_step_mul(g1, self.sigma, 40_000_000_000);
        proof {
            assert(-(40_000_000_000int) * crate::PRECISION <= g2 as int * tau <= 40_000_000_000int
                * crate::PRECISION) by (nonlinear_arith)
                requires
                    -40_000_000_000int <= g2 <= 40_000_000_000int,
                    0 <= tau <= crate::PRECISION,
            ;
        }
        let g3 = Self::ratio_step_mul(g2, tau, 40_000_000_000);
        let bps_raw = (g3 + self.intensity as i128) * 10_000;
        let bps = crate::fixed::sat_i64(bps_raw);
        let spread_bps = clamp_i64(
            bps,
            self.base.params.min_spread_bps,
            self.base.params.max_spread_bps,
        );
        proof {
            assert(0 <= mid * spread_bps <= (VALUE_LIMIT as int) * (2 * crate::BPS_MUL))
                by (nonlinear_arith)
                requires
                    0 < mid <= VALUE_LIMIT,
                    0 <= spread_bps <= MAX_BPS,
                    2 * (MAX_BPS as int) <= 2 * crate::BPS_MUL,
            ;
            assert((VALUE_LIMIT as int) * (2 * crate::BPS_MUL) == (VALUE_LIMIT as int) * 2
                * crate::BPS_MUL) by (nonlinear_arith);
            lemma_div_trunc_bound(mid * spread_bps, 2 * crate::BPS_MUL as int, VALUE_LIMIT as int);
        }
        let half_spread = div_wide(mul_wide(mid, spread_bps), 2 * crate::BPS_MUL as i128);

        let bid_price = crate::fixed::sat_i64(reservation as i128 - half_spread);
        let ask_price = crate::fixed::sat_i64(reservation as i128 + half_spread);

        if bid_price >= ask_price {
            let mut d = QuoteDecision::decline("Prices would cross");
            d.bid_price = bid_price;
            d.ask_price = ask_price;
            return d;
        }

        let bid_size = self.base.calculate_order_size(Side::Buy, position);
        let ask_size = self.base.calculate_order_size(Side::Sell, position);
        let should_quote = bid_size > 0 || ask_size > 0;

        QuoteDecision {
            should_quote,
            bid_price,
            ask_price,
            bid_size,
            ask_size,
            reason: String::new(),
        }
    }

    /// One fixed-point scale reduction: `a / 10^8`, with the result
    /// bounded by `rbound`.
    fn ratio_step(a: i128, rbound: i128) -> (r: i128)
        requires
            0 < rbound,
            -rbound * crate::PRECISION <= a <= rbound * crate::PRECISION,
        ensures
            r == div_trunc(a as int, crate::PRECISION as int),
            -rbound <= r <= rbound,
    {
        proof {
            lemma_div_trunc_bound(a as int, crate::PRECISION as int, rbound as int);
        }
        div_wide(a, crate::PRECISION as i128)
    }

    /// One fixed-point ratio fold: `a * b / 10^8`, with the result bounded
    /// by `rbound`.
    fn ratio_step_mul(a: i128, b: i64, rbound: i128) -> (r: i128)
        requires
            0 < rbound,
            -rbound * crate::PRECISION <= a as int * b <= rbound * crate::PRECISION,
            rbound * crate::PRECISION <= 0x7fff_ffff_ffff_ffff_ffff_ffff_ffff_ffff,
        ensures
            r == div_trunc(a as int * b as int, crate::PRECISION as int),
            -rbound <= r <= rbound,
    {
        proof {
            lemma_div_trunc_bound(a as int * b, crate::PRECISION as int, rbound as int);
        }
        div_wide(a * (b as i128), crate::PRECISION as i128)
    }

    /// Count a fill against the underlying maker.
    pub fn on_fill(&mut self, order: &Order, filled_qty: Quantity, fill_price: Price)
        ensures
            *final(self) == (AvellanedaStoikovMM {
                base: (BasicMarketMaker { fills: spec_wrap64(old(self).base.fills), ..old(self).base }),
                ..*old(self)
            }),
    {
        self.base.on_fill(order, filled_qty, fill_price);
    }

    /// Forget the active quote this cancel names.
    pub fn on_cancel(&mut self, order_id: OrderId)
        ensures
            *final(self) == (AvellanedaStoikovMM {
                base: spec_basic_on_cancel(old(self).base, order_id),
                ..*old(self)
            }),
    {
        self.base.on_cancel(order_id);
    }

    /// Current parameters.
    pub fn params(&self) -> (r: &MarketMakerParams)
        ensures
            *r == self.base.params,
    {
        self.base.params()
    }

    /// Replace the parameters.
    pub fn update_params(&mut self, params: MarketMakerParams)
        requires
            old(self).wf(),
            params.wf(),
        ensures
            final(self).wf(),
            final(self).base.params == params,
    {
        self.base.update_params(params);
    }

    /// Turn quoting on or off.
    pub fn set_enabled(&mut self, enabled: bool)
        ensures
            *final(self) == (AvellanedaStoikovMM {
                base: (BasicMarketMaker { enabled, ..old(self).base }),
                ..*old(self)
            }),
    {
        self.base.set_enabled(enabled);
    }

    /// Whether quoting is on.
    pub fn is_enabled(&self) -> (r: bool)
        ensures
            r == self.base.enabled,
    {
        self.base.is_enabled()
    }
}

} // verus!
