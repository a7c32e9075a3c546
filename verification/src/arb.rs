//! Arbitrage detection over the consolidated book, and the simulated
//! executor.

use vstd::prelude::*;

use crate::consolidated::{ConsolidatedBook, NBBO};
use crate::fixed::{clamp_i64, clamp_spec, div_trunc, div_wide, mul_wide, wrap_inc};
use crate::strategy::spec_wrap64;
use crate::types::{ArbitrageOpportunity, Quantity, Timestamp, VALUE_LIMIT};

verus! {

/// What the detector accepts; basis points at fixed-point scale 10^8.
#[derive(Debug, Clone)]
pub struct ArbitrageConfig {
    pub min_profit_bps: i64,
    pub max_slippage_bps: i64,
    pub min_quantity: Quantity,
    pub max_quantity: Quantity,
    pub max_age_ns: Timestamp,
}

impl ArbitrageConfig {
    /// A usable quantity band.
    pub open spec fn wf(&self) -> bool {
        0 <= self.min_quantity <= self.max_quantity <= VALUE_LIMIT
    }
}

impl Default for ArbitrageConfig {
    /// Five basis points of profit at least, up to a tenth of a unit.
    fn default() -> (r: ArbitrageConfig)
        ensures
            r.wf(),
            r == (ArbitrageConfig {
                min_profit_bps: 500_000_000i64,
                max_slippage_bps: 200_000_000i64,
                min_quantity: 100_000i64,
                max_quantity: 10_000_000i64,
                max_age_ns: 100_000_000u64,
            }),
    {
        ArbitrageConfig {
            min_profit_bps: 500_000_000,
            max_slippage_bps: 200_000_000,
            min_quantity: 100_000,
            max_quantity: 10_000_000,
            max_age_ns: 100_000_000,
        }
    }
}

/// Whether the NBBO shows an opportunity the detector would emit: two
/// different venues cross, the midpoint is positive, and the profit in
/// basis points reaches the configured floor.
pub open spec fn spec_detects(c: ArbitrageConfig, b: NBBO) -> bool {
    let mid = (b.best_bid + b.best_ask) / 2;
    &&& b.best_bid_exchange != b.best_ask_exchange
    &&& b.best_bid > b.best_ask
    &&& mid > 0
    &&& spec_profit_bps(b) >= c.min_profit_bps
}

/// The crossed amount in basis points of the midpoint, at fixed-point
/// scale 10^8.
pub open spec fn spec_profit_bps(b: NBBO) -> int {
    let mid = (b.best_bid + b.best_ask) / 2;
    clamp_spec(
        div_trunc((b.best_bid - b.best_ask) * crate::BPS_MUL, mid),
        i64::MIN as int,
        i64::MAX as int,
    )
}

/// Watches the consolidated book for crossed venues.
pub struct ArbitrageDetector {
    pub config: ArbitrageConfig,
    pub opportunities_found: u64,
    pub opportunities_executed: u64,
}

impl ArbitrageDetector {
    /// A usable configuration.
    pub open spec fn wf(&self) -> bool {
        self.config.wf()
    }

    /// A fresh detector under `config`.
    pub fn new(config: ArbitrageConfig) -> (r: ArbitrageDetector)
        requires
            config.wf(),
        ensures
            r.wf(),
            r.config == config,
            r.opportunities_found == 0,
            r.opportunities_executed == 0,
    {
        ArbitrageDetector { config, opportunities_found: 0, opportunities_executed: 0 }
    }

    /// The opportunity the book's NBBO shows, if it clears the profit
    /// floor, its quantity forced into the configured band; counting each
    /// one found.
    pub fn detect(&mut self, book: &ConsolidatedBook) -> (r: Option<ArbitrageOpportunity>)
        requires
            old(self).wf(),
            book.wf(),
        ensures
            final(self).wf(),
            final(self).config == old(self).config,
            (r is Some) <==> spec_detects(old(self).config, book.nbbo),
            r is Some ==> ({
                let o = r->Some_0;
                let b = book.nbbo;
                &&& o.buy_exchange == b.best_ask_exchange
                &&& o.sell_exchange == b.best_bid_exchange
                &&& o.buy_price == b.best_ask
                &&& o.sell_price == b.best_bid
                &&& o.profit_bps == spec_profit_bps(b)
                &&& o.quantity == clamp_spec(
                    (if b.best_bid_qty <= b.best_ask_qty {
                        b.best_bid_qty as int
                    } else {
                        b.best_ask_qty as int
                    }),
                    old(self).config.min_quantity as int,
                    old(self).config.max_quantity as int,
                )
                &&& o.symbol == book.symbol
            }),
            final(self).opportunities_found == if r is Some {
                spec_wrap64(old(self).opportunities_found)
            } else {
                old(self).opportunities_found
            },
            final(self).opportunities_executed == old(self).opportunities_executed,
    {
        match book.find_arbitrage() {
            Some(mut opp) => {
                if opp.profit_bps < self.config.min_profit_bps {
                    return None;
                }
                opp.quantity = clamp_i64(opp.quantity, self.config.min_quantity, self.config.max_quantity);
                self.opportunities_found = wrap_inc(self.opportunities_found);
                Some(opp)
            },
            None => None,
        }
    }

    /// Count an attempted execution.
    pub fn record_execution(&mut self, _success: bool)
        ensures
            final(self).opportunities_executed == spec_wrap64(old(self).opportunities_executed),
            final(self).opportunities_found == old(self).opportunities_found,
            final(self).config == old(self).config,
    {
        self.opportunities_executed = wrap_inc(self.opportunities_executed);
    }

    /// How many opportunities were found.
    pub fn opportunities_found(&self) -> (r: u64)
        ensures
            r == self.opportunities_found,
    {
        self.opportunities_found
    }

    /// How many executions were recorded.
    pub fn opportunities_executed(&self) -> (r: u64)
        ensures
            r == self.opportunities_executed,
    {
        self.opportunities_executed
    }
}

/// Places the two legs of an opportunity. In this library it only computes
/// the profit the legs would realise; dispatch belongs to the venue
/// adapters around it.
pub struct ArbitrageExecutor {
    pub max_retries: u32,
}

impl ArbitrageExecutor {
    /// An executor with the stock retry budget.
    pub fn new() -> (r: ArbitrageExecutor)
        ensures
            r.max_retries == 3,
    {
        ArbitrageExecutor { max_retries: 3 }
    }

    /// The profit the two legs realise: quantity times the price gap, in
    /// quote units at fixed-point scale 10^8.
    pub fn execute(&self, opp: &ArbitrageOpportunity) -> (r: Result<i64, String>)
        requires
            0 <= opp.quantity <= VALUE_LIMIT,
            0 <= opp.buy_price <= VALUE_LIMIT,
            0 <= opp.sell_price <= VALUE_LIMIT,
        ensures
            r is Ok,
            r->Ok_0 == clamp_spec(
                div_trunc(
                    opp.quantity * (opp.sell_price - opp.buy_price),
                    crate::PRECISION as int,
                ),
                i64::MIN as int,
                i64::MAX as int,
            ),
    {
        let gap = opp.sell_price - opp.buy_price;
        let profit = crate::fixed::sat_i64(
            div_wide(mul_wide(opp.quantity, gap), crate::PRECISION as i128),
        );
        Ok(profit)
    }
}

impl Default for ArbitrageExecutor {
    /// Same as `new`.
    fn default() -> (r: ArbitrageExecutor)
        ensures
            r.max_retries == 3,
    {
        ArbitrageExecutor::new()
    }
}

} // verus!
