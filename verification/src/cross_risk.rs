//! Risk control across venues: per-venue and total position caps, daily
//! loss tracking, and the cross-venue kill switch.

use vstd::prelude::*;

use crate::cross::{pos_of, pos_sum, CrossExchangePosition};
use crate::fixed::{clamp_spec, sat_add_i128};
use crate::types::{ExchangeId, Quantity, Side, VALUE_LIMIT};

verus! {

/// Limits for the cross-venue book; monetary values at fixed-point scale
/// 10^8.
#[derive(Debug, Clone)]
pub struct CrossExchangeRiskLimits {
    pub max_position_per_exchange: Quantity,
    pub max_total_position: Quantity,
    pub max_daily_loss: i64,
    pub max_drawdown: i64,
    pub kill_switch_enabled: bool,
}

impl CrossExchangeRiskLimits {
    /// Limits the checks' arithmetic can live with.
    pub open spec fn wf(&self) -> bool {
        &&& 0 <= self.max_position_per_exchange <= VALUE_LIMIT
        &&& 0 <= self.max_total_position <= VALUE_LIMIT
        &&& 0 <= self.max_daily_loss
        &&& 0 <= self.max_drawdown
    }
}

impl Default for CrossExchangeRiskLimits {
    /// A tenth of a unit per venue, a fifth in total.
    fn default() -> (r: CrossExchangeRiskLimits)
        ensures
            r.wf(),
            r == (CrossExchangeRiskLimits {
                max_position_per_exchange: 10_000_000i64,
                max_total_position: 20_000_000i64,
                max_daily_loss: 50_000_000_000i64,
                max_drawdown: 100_000_000_000i64,
                kill_switch_enabled: true,
            }),
    {
        CrossExchangeRiskLimits {
            max_position_per_exchange: 10_000_000,
            max_total_position: 20_000_000,
            max_daily_loss: 50_000_000_000,
            max_drawdown: 100_000_000_000,
            kill_switch_enabled: true,
        }
    }
}

/// Whether an order of `qty` on `side` at `exchange` passes the caps:
/// the kill switch is clear, the venue's new position stays inside the
/// per-venue cap, and the new total stays inside the total cap.
pub open spec fn spec_cross_check(
    m: RiskManager,
    exchange: ExchangeId,
    side: Side,
    qty: int,
) -> bool {
    let cur = pos_of(m.positions.entries@, exchange);
    let new_pos = if side == Side::Buy {
        cur + qty
    } else {
        cur - qty
    };
    let total = pos_sum(m.positions.entries@);
    let new_total = if side == Side::Buy {
        total + qty
    } else {
        total - qty
    };
    &&& !m.kill_switch
    &&& crate::strategy::abs_int(new_pos) <= m.limits.max_position_per_exchange
    &&& crate::strategy::abs_int(new_total) <= m.limits.max_total_position
}

/// Cross-venue risk manager.
pub struct RiskManager {
    pub limits: CrossExchangeRiskLimits,
    pub positions: CrossExchangePosition,
    pub pnl_by_exchange: Vec<(ExchangeId, i128)>,
    pub daily_pnl: i128,
    pub kill_switch: bool,
}

impl RiskManager {
    /// Invariant the manager keeps across every operation: sound limits,
    /// per-venue positions inside the band, and a bounded total.
    pub open spec fn wf(&self) -> bool {
        &&& self.limits.wf()
        &&& self.positions.wf()
        &&& self.positions.entries@.len() <= 6
    }

    /// A fresh manager under `limits`: flat, quiet, kill switch clear.
    pub fn new(limits: CrossExchangeRiskLimits) -> (r: RiskManager)
        requires
            limits.wf(),
        ensures
            r.wf(),
            r.limits == limits,
            r.positions.entries@.len() == 0,
            r.daily_pnl == 0,
            !r.kill_switch,
    {
        RiskManager {
            limits,
            positions: CrossExchangePosition::new(),
            pnl_by_exchange: Vec::new(),
            daily_pnl: 0,
            kill_switch: false,
        }
    }

    /// Whether an order passes the position caps; exactly
    /// `spec_cross_check` of the current state.
    pub fn check_order(&self, exchange: ExchangeId, side: Side, qty: Quantity) -> (r: bool)
        requires
            self.wf(),
            0 <= qty <= VALUE_LIMIT,
        ensures
            r == spec_cross_check(*self, exchange, side, qty as int),
    {
        if self.kill_switch {
            return false;
        }
        let current_pos = self.positions.get(exchange);
        let new_pos: i64 = match side {
            Side::Buy => current_pos + qty,
            Side::Sell => current_pos - qty,
        };
        let abs_new = if new_pos >= 0 {
            new_pos
        } else {
            -new_pos
        };
        if abs_new > self.limits.max_position_per_exchange {
            return false;
        }
        let total = self.total_position_wide();
        let new_total: i128 = match side {
            Side::Buy => total + qty as i128,
            Side::Sell => total - qty as i128,
        };
        let abs_total = if new_total >= 0 {
            new_total
        } else {
            -new_total
        };
        abs_total <= self.limits.max_total_position as i128
    }

    /// The exact sum of the per-venue positions.
    fn total_position_wide(&self) -> (r: i128)
        requires
            self.positions.wf(),
            self.positions.entries@.len() <= 6,
        ensures
            r == pos_sum(self.positions.entries@),
            -6 * VALUE_LIMIT <= r <= 6 * VALUE_LIMIT,
    {
        let s = &self.positions.entries;
        let n = s.len();
        let mut acc: i128 = 0;
        let mut i: usize = 0;
        while i < n
            invariant
                n == s@.len() <= 6,
                i <= n,
                self.positions.wf(),
                s == self.positions.entries,
                acc == pos_sum(s@.take(i as int)),
                -(i as int) * VALUE_LIMIT <= acc <= (i as int) * VALUE_LIMIT,
            decreases n - i,
        {
            proof {
                assert(s@.take(i as int + 1).drop_last() =~= s@.take(i as int));
                assert(s@.take(i as int + 1).last() == s@[i as int]);
                assert((i as int) * VALUE_LIMIT + VALUE_LIMIT == (i as int + 1) * VALUE_LIMIT)
                    by (nonlinear_arith);
            }
            acc = acc + (s[i].1 as i128);
            i = i + 1;
        }
        proof {
            assert(s@.take(n as int) =~= s@);
            assert((n as int) * VALUE_LIMIT <= 6 * VALUE_LIMIT) by (nonlinear_arith)
                requires
                    0 <= n <= 6,
                    VALUE_LIMIT > 0,
            ;
        }
        acc
    }

    /// Fold a fill into the venue's position and the day's profit; a loss
    /// past the daily limit latches the kill switch.
    pub fn on_fill(&mut self, exchange: ExchangeId, side: Side, qty: Quantity, pnl: i64)
        requires
            old(self).wf(),
            0 <= qty <= VALUE_LIMIT,
            -VALUE_LIMIT <= pos_of(old(self).positions.entries@, exchange) + qty <= VALUE_LIMIT,
            -VALUE_LIMIT <= pos_of(old(self).positions.entries@, exchange) - qty <= VALUE_LIMIT,
            (forall|j: int|
                0 <= j < old(self).positions.entries@.len() ==> (#[trigger] old(
                    self,
                ).positions.entries@[j].0) != exchange) ==> old(self).positions.entries@.len() < 6,
        ensures
            final(self).wf(),
            pos_of(final(self).positions.entries@, exchange) == pos_of(
                old(self).positions.entries@,
                exchange,
            ) + (if side == Side::Buy {
                qty as int
            } else {
                -qty as int
            }),
            forall|e: ExchangeId|
                e != exchange ==> #[trigger] pos_of(final(self).positions.entries@, e) == pos_of(
                    old(self).positions.entries@,
                    e,
                ),
            final(self).daily_pnl == clamp_spec(
                old(self).daily_pnl + pnl,
                i128::MIN as int,
                i128::MAX as int,
            ),
            final(self).kill_switch == (old(self).kill_switch || (old(self).limits.kill_switch_enabled
                && final(self).daily_pnl < -old(self).limits.max_daily_loss)),
            final(self).limits == old(self).limits,
    {
        let current = self.positions.get(exchange);
        let new_pos: i64 = match side {
            Side::Buy => current + qty,
            Side::Sell => current - qty,
        };
        let ghost n0 = self.positions.entries@.len();
        self.positions.update(exchange, new_pos);
        proof {
            if self.positions.entries@.len() > n0 {
                assert(self.positions.entries@.len() == n0 + 1);
            }
        }
        self.bump_venue_pnl(exchange, pnl);
        self.daily_pnl = sat_add_i128(self.daily_pnl, pnl as i128);
        if self.limits.kill_switch_enabled && self.daily_pnl < -(self.limits.max_daily_loss
            as i128) {
            self.kill_switch = true;
        }
    }

    /// Add to one venue's running profit.
    fn bump_venue_pnl(&mut self, exchange: ExchangeId, pnl: i64)
        ensures
            final(self).positions == old(self).positions,
            final(self).limits == old(self).limits,
            final(self).daily_pnl == old(self).daily_pnl,
            final(self).kill_switch == old(self).kill_switch,
    {
        let n = self.pnl_by_exchange.len();
        let mut i: usize = 0;
        while i < n && !crate::consolidated::exchange_eq(self.pnl_by_exchange[i].0, exchange)
            invariant
                n == self.pnl_by_exchange@.len(),
                i <= n,
                self == old(self),
            decreases n - i,
        {
            i = i + 1;
        }
        if i < n {
            let cur = self.pnl_by_exchange[i].1;
            self.pnl_by_exchange[i] = (exchange, crate::fixed::sat_add_i128(cur, pnl as i128));
        } else {
            self.pnl_by_exchange.push((exchange, pnl as i128));
        }
    }

    /// Latch the kill switch.
    pub fn activate_kill_switch(&mut self, _reason: &str)
        ensures
            final(self).kill_switch,
            final(self).positions == old(self).positions,
            final(self).limits == old(self).limits,
            final(self).daily_pnl == old(self).daily_pnl,
    {
        self.kill_switch = true;
    }

    /// Clear the kill switch.
    pub fn deactivate_kill_switch(&mut self)
        ensures
            !final(self).kill_switch,
            final(self).positions == old(self).positions,
            final(self).limits == old(self).limits,
            final(self).daily_pnl == old(self).daily_pnl,
    {
        self.kill_switch = false;
    }

    /// Whether the kill switch is latched.
    pub fn is_kill_switch_active(&self) -> (r: bool)
        ensures
            r == self.kill_switch,
    {
        self.kill_switch
    }

    /// Position held at one venue.
    pub fn get_position(&self, exchange: ExchangeId) -> (r: Quantity)
        requires
            self.wf(),
        ensures
            r == pos_of(self.positions.entries@, exchange),
    {
        self.positions.get(exchange)
    }

    /// Net position across venues.
    pub fn get_total_position(&self) -> (r: Quantity)
        requires
            self.wf(),
        ensures
            r == pos_sum(self.positions.entries@),
    {
        let t = self.total_position_wide();
        t as i64
    }

    /// The day's running profit, at fixed-point scale 10^8.
    pub fn get_daily_pnl(&self) -> (r: i128)
        ensures
            r == self.daily_pnl,
    {
        self.daily_pnl
    }

    /// Zero the day's profit figures.
    pub fn reset_daily(&mut self)
        ensures
            final(self).daily_pnl == 0,
            final(self).pnl_by_exchange@.len() == 0,
            final(self).positions == old(self).positions,
            final(self).limits == old(self).limits,
            final(self).kill_switch == old(self).kill_switch,
    {
        self.daily_pnl = 0;
        self.pnl_by_exchange.clear();
    }
}

} // verus!
