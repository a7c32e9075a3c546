//! Pre-trade risk checks, position accounting, and the kill switch.
//!
//! `check_order_at` is a pure decision over the manager's state, the order
//! and the wall-clock second: its result equals `spec_check` of those three,
//! which is what makes the check deterministic. `check_order` merely reads
//! the clock and delegates.

use vstd::prelude::*;

use crate::book::ids_distinct;
use crate::fixed::{
    clamp_spec, div_trunc, div_wide, lemma_div_trunc_bound, mul_wide, sat_add_i128, sat_sub_i128,
    wrap_inc,
};
use crate::types::{
    now_millis, now_nanos, valid_position, Order, OrderId, Price, Quantity, Side, Symbol,
    Timestamp, VALUE_LIMIT,
};

verus! {

/// Risk limits. Quantities and monetary values are fixed-point scale 10^8;
/// a zero limit disables its check.
#[derive(Debug, Clone, Copy)]
pub struct RiskLimits {
    pub max_position_qty: Quantity,
    pub max_position_value: i64,
    pub max_order_qty: Quantity,
    pub max_order_value: i64,
    pub max_orders_per_second: u32,
    pub max_open_orders: u32,
    pub max_daily_loss: i64,
    pub max_drawdown: i64,
    pub max_deviation_bps: i64,
    pub kill_switch_enabled: bool,
}

impl RiskLimits {
    /// Limits the arithmetic of the checks can live with.
    pub open spec fn wf(&self) -> bool {
        &&& 0 <= self.max_position_qty <= VALUE_LIMIT
        &&& 0 <= self.max_order_qty <= VALUE_LIMIT
        &&& 0 <= self.max_order_value
        &&& 0 <= self.max_position_value
        &&& 0 <= self.max_daily_loss
        &&& 0 <= self.max_drawdown
    }
}

impl Default for RiskLimits {
    /// Conservative defaults: one unit of position, a tenth of a unit per
    /// order, ten orders a second.
    fn default() -> (r: RiskLimits)
        ensures
            r.wf(),
            r == (RiskLimits {
                max_position_qty: 100_000_000i64,
                max_position_value: 10_000_000_000_000i64,
                max_order_qty: 10_000_000i64,
                max_order_value: 1_000_000_000_000i64,
                max_orders_per_second: 10u32,
                max_open_orders: 100u32,
                max_daily_loss: 100_000_000_000i64,
                max_drawdown: 200_000_000_000i64,
                max_deviation_bps: 10_000_000_000i64,
                kill_switch_enabled: true,
            }),
    {
        RiskLimits {
            max_position_qty: 100_000_000,
            max_position_value: 10_000_000_000_000,
            max_order_qty: 10_000_000,
            max_order_value: 1_000_000_000_000,
            max_orders_per_second: 10,
            max_open_orders: 100,
            max_daily_loss: 100_000_000_000,
            max_drawdown: 200_000_000_000,
            max_deviation_bps: 10_000_000_000,
            kill_switch_enabled: true,
        }
    }
}

/// What a failed check violated.
#[derive(Debug, Clone, Copy, PartialEq, Eq, Hash, Structural)]
pub enum RiskViolation {
    PositionLimit,
    OrderSizeLimit,
    OrderValueLimit,
    RateLimit,
    OpenOrdersLimit,
    DailyLossLimit,
    DrawdownLimit,
    PriceDeviation,
    KillSwitchActive,
}

/// Outcome of a pre-trade check.
#[derive(Debug, Clone)]
pub struct RiskCheckResult {
    pub passed: bool,
    pub violation: Option<RiskViolation>,
    pub message: String,
}

impl RiskCheckResult {
    /// A passing result with an empty message.
    pub fn pass() -> (r: RiskCheckResult)
        ensures
            r.passed,
            r.violation is None,
            r.message@.len() == 0,
    {
        RiskCheckResult { passed: true, violation: None, message: String::new() }
    }

    /// A failing result naming its violation.
    pub fn fail(violation: RiskViolation, message: &str) -> (r: RiskCheckResult)
        ensures
            !r.passed,
            r.violation == Some(violation),
            r.message@ == message@,
    {
        RiskCheckResult { passed: false, violation: Some(violation), message: message.to_owned() }
    }
}

/// A signed position with its cost basis and realised profit.
/// Profit fields are fixed-point scale 10^8 held in 128 bits.
#[derive(Debug, Clone)]
pub struct Position {
    pub symbol: Symbol,
    pub quantity: Quantity,
    pub avg_price: Price,
    pub unrealized_pnl: i128,
    pub realized_pnl: i128,
    pub last_update: Timestamp,
}

impl Position {
    /// Bounds under which the accounting arithmetic is exact.
    pub open spec fn wf(&self) -> bool {
        &&& valid_position(self.quantity as int)
        &&& 0 <= self.avg_price <= VALUE_LIMIT
    }

    /// Absolute exposure at `current_price`, in quote units at fixed-point
    /// scale 10^8.
    pub fn notional_value(&self, current_price: Price) -> (r: i128)
        requires
            self.wf(),
            0 <= current_price <= VALUE_LIMIT,
        ensures
            r == div_trunc(
                (if self.quantity >= 0 {
                    self.quantity as int
                } else {
                    -self.quantity as int
                }) * current_price,
                crate::PRECISION as int,
            ),
    {
        let q = if self.quantity >= 0 {
            self.quantity
        } else {
            -self.quantity
        };
        let v = mul_wide(q, current_price);
        div_wide(v, crate::PRECISION as i128)
    }

    /// Whether the position is long.
    pub fn is_long(&self) -> (r: bool)
        ensures
            r == (self.quantity > 0),
    {
        self.quantity > 0
    }

    /// Whether the position is short.
    pub fn is_short(&self) -> (r: bool)
        ensures
            r == (self.quantity < 0),
    {
        self.quantity < 0
    }

    /// Whether the position is flat.
    pub fn is_flat(&self) -> (r: bool)
        ensures
            r == (self.quantity == 0),
    {
        self.quantity == 0
    }
}

// ============================================================================
// The manager and its check, as a pure decision
// ============================================================================

/// Pre-trade risk manager for a single venue.
pub struct RiskManager {
    pub limits: RiskLimits,
    pub position: Position,
    pub open_orders: Vec<Order>,
    pub orders_this_second: u64,
    pub current_second: u64,
    pub daily_realized_pnl: i128,
    pub peak_equity: i128,
    pub kill_switch_active: bool,
    pub orders_checked: u64,
    pub orders_rejected: u64,
}

/// Absolute value.
pub open spec fn spec_abs(x: int) -> int {
    if x >= 0 {
        x
    } else {
        -x
    }
}

/// A counter one step on, wrapping at the top.
pub open spec fn spec_wrap_inc(x: u64) -> u64 {
    if x == u64::MAX {
        0u64
    } else {
        (x + 1) as u64
    }
}

/// The position the order would leave if fully filled.
pub open spec fn spec_potential(m: RiskManager, o: Order) -> int {
    match o.side {
        Side::Buy => m.position.quantity + o.quantity,
        Side::Sell => m.position.quantity - o.quantity,
    }
}

/// Orders already counted against this wall-clock second.
pub open spec fn spec_rate_count(m: RiskManager, now_s: u64) -> u64 {
    if now_s == m.current_second {
        m.orders_this_second
    } else {
        0u64
    }
}

/// The checks ahead of the rate limit all pass.
pub open spec fn spec_pre_rate_ok(m: RiskManager, o: Order) -> bool {
    &&& !m.kill_switch_active
    &&& !(m.limits.max_position_qty != 0 && spec_abs(spec_potential(m, o))
        > m.limits.max_position_qty)
    &&& !(m.limits.max_order_qty > 0 && o.quantity > m.limits.max_order_qty)
    &&& !(m.limits.max_order_value > 0 && div_trunc(
        o.quantity * o.price,
        crate::PRECISION as int,
    ) > m.limits.max_order_value)
}

/// The checks ahead of the daily-loss test all pass.
pub open spec fn spec_pre_daily_ok(m: RiskManager, o: Order, now_s: u64) -> bool {
    &&& spec_pre_rate_ok(m, o)
    &&& !(m.limits.max_orders_per_second != 0 && spec_rate_count(m, now_s)
        >= m.limits.max_orders_per_second)
    &&& !(m.limits.max_open_orders != 0 && m.open_orders@.len() >= m.limits.max_open_orders)
}

/// The message a check result carries for each verdict, so that the whole
/// result, message included, is a function of the decision.
pub open spec fn spec_violation_message(v: Option<RiskViolation>) -> Seq<char> {
    match v {
        None => Seq::<char>::empty(),
        Some(RiskViolation::KillSwitchActive) => "Kill switch is active"@,
        Some(RiskViolation::PositionLimit) => "Position limit exceeded"@,
        Some(RiskViolation::OrderSizeLimit) => "Order size exceeds limit"@,
        Some(RiskViolation::OrderValueLimit) => "Order value exceeds limit"@,
        Some(RiskViolation::RateLimit) => "Rate limit exceeded"@,
        Some(RiskViolation::OpenOrdersLimit) => "Open orders limit reached"@,
        Some(RiskViolation::DailyLossLimit) => "Daily loss limit reached"@,
        Some(RiskViolation::DrawdownLimit) => "Drawdown limit exceeded"@,
        Some(RiskViolation::PriceDeviation) => "Price deviates too far"@,
    }
}

/// The whole pre-trade decision: the first violated check, in the fixed
/// order kill switch, position, order size, order value, rate, open
/// orders, daily loss; `None` when the order passes.
pub open spec fn spec_check(m: RiskManager, o: Order, now_s: u64) -> Option<RiskViolation> {
    if m.kill_switch_active {
        Some(RiskViolation::KillSwitchActive)
    } else if m.limits.max_position_qty != 0 && spec_abs(spec_potential(m, o))
        > m.limits.max_position_qty {
        Some(RiskViolation::PositionLimit)
    } else if m.limits.max_order_qty > 0 && o.quantity > m.limits.max_order_qty {
        Some(RiskViolation::OrderSizeLimit)
    } else if m.limits.max_order_value > 0 && div_trunc(o.quantity * o.price, crate::PRECISION as int)
        > m.limits.max_order_value {
        Some(RiskViolation::OrderValueLimit)
    } else if m.limits.max_orders_per_second != 0 && spec_rate_count(m, now_s)
        >= m.limits.max_orders_per_second {
        Some(RiskViolation::RateLimit)
    } else if m.limits.max_open_orders != 0 && m.open_orders@.len() >= m.limits.max_open_orders {
        Some(RiskViolation::OpenOrdersLimit)
    } else if m.limits.max_daily_loss != 0 && -m.daily_realized_pnl >= m.limits.max_daily_loss {
        Some(RiskViolation::DailyLossLimit)
    } else {
        None
    }
}

/// How one check call moves the manager's state: both counters step, the
/// rate window is touched only when the order reaches the rate check, and
/// the kill switch latches on a daily-loss failure.
pub open spec fn spec_check_post(pre: RiskManager, post: RiskManager, o: Order, now_s: u64) -> bool {
    post == (RiskManager {
        orders_checked: spec_wrap_inc(pre.orders_checked),
        orders_rejected: if spec_check(pre, o, now_s) is Some {
            spec_wrap_inc(pre.orders_rejected)
        } else {
            pre.orders_rejected
        },
        current_second: if spec_pre_rate_ok(pre, o) && pre.limits.max_orders_per_second != 0 {
            now_s
        } else {
            pre.current_second
        },
        orders_this_second: if spec_pre_rate_ok(pre, o) && pre.limits.max_orders_per_second != 0 {
            spec_wrap_inc(spec_rate_count(pre, now_s))
        } else {
            pre.orders_this_second
        },
        kill_switch_active: pre.kill_switch_active || (spec_pre_daily_ok(pre, o, now_s)
            && pre.limits.max_daily_loss != 0 && -pre.daily_realized_pnl
            >= pre.limits.max_daily_loss),
        ..pre
    })
}

/// A 128-bit saturating result, as a value of the mathematical integers.
pub open spec fn spec_sat128(x: int) -> int {
    clamp_spec(x, i128::MIN as int, i128::MAX as int)
}

/// What one fill does to a position `(quantity, cost basis)`: the new
/// quantity, the new cost basis, and the profit realised on the closed
/// part, rounded toward zero at fixed-point scale 10^8.
pub open spec fn spec_fill(q0: int, avg0: int, side: Side, fq: int, fp: int) -> (int, int, int) {
    match side {
        Side::Buy => {
            if q0 >= 0 {
                let q1 = q0 + fq;
                (q1, (avg0 * q0 + fp * fq) / q1, 0)
            } else {
                let covered = if fq <= -q0 {
                    fq
                } else {
                    -q0
                };
                let pnl = div_trunc(covered * (avg0 - fp), crate::PRECISION as int);
                let q1 = q0 + fq;
                (q1, if q1 > 0 {
                    fp
                } else {
                    avg0
                }, pnl)
            }
        },
        Side::Sell => {
            if q0 <= 0 {
                let q1 = q0 - fq;
                (q1, (avg0 * (-q0) + fp * fq) / (-q1), 0)
            } else {
                let closed = if fq <= q0 {
                    fq
                } else {
                    q0
                };
                let pnl = div_trunc(closed * (fp - avg0), crate::PRECISION as int);
                let q1 = q0 - fq;
                (q1, if q1 < 0 {
                    fp
                } else {
                    avg0
                }, pnl)
            }
        },
    }
}

/// The quantity-weighted average of two admissible prices is admissible,
/// and its ingredients stay well inside 128 bits.
pub proof fn lemma_weighted_avg_bounds(avg0: int, q0: int, fp: int, fq: int)
    requires
        0 <= avg0 <= VALUE_LIMIT,
        0 <= q0 <= VALUE_LIMIT,
        0 < fp <= VALUE_LIMIT,
        0 < fq <= VALUE_LIMIT,
    ensures
        0 <= avg0 * q0 <= VALUE_LIMIT * VALUE_LIMIT,
        0 <= fp * fq <= VALUE_LIMIT * VALUE_LIMIT,
        avg0 * q0 + fp * fq <= (q0 + fq) * VALUE_LIMIT,
        0 <= (avg0 * q0 + fp * fq) / (q0 + fq) <= VALUE_LIMIT,
{
    assert(0 <= avg0 * q0 <= VALUE_LIMIT * VALUE_LIMIT) by (nonlinear_arith)
        requires
            0 <= avg0 <= VALUE_LIMIT,
            0 <= q0 <= VALUE_LIMIT,
    ;
    assert(0 <= fp * fq <= VALUE_LIMIT * VALUE_LIMIT) by (nonlinear_arith)
        requires
            0 < fp <= VALUE_LIMIT,
            0 < fq <= VALUE_LIMIT,
    ;
    assert(avg0 * q0 + fp * fq <= (q0 + fq) * VALUE_LIMIT) by (nonlinear_arith)
        requires
            0 <= avg0 <= VALUE_LIMIT,
            0 <= q0,
            0 < fp <= VALUE_LIMIT,
            0 < fq,
    ;
    lemma_div_trunc_bound(avg0 * q0 + fp * fq, q0 + fq, VALUE_LIMIT as int);
}

impl RiskManager {
    /// Invariant the manager keeps across every operation.
    pub open spec fn wf(&self) -> bool {
        &&& self.limits.wf()
        &&& self.position.wf()
        &&& ids_distinct(self.open_orders@)
    }

    /// A fresh manager under `limits`: flat, quiet, kill switch clear.
    pub fn new(limits: RiskLimits) -> (r: RiskManager)
        requires
            limits.wf(),
        ensures
            r.wf(),
            r.limits == limits,
            r.position.quantity == 0,
            r.position.avg_price == 0,
            r.position.realized_pnl == 0,
            r.open_orders@.len() == 0,
            r.daily_realized_pnl == 0,
            r.peak_equity == 0,
            !r.kill_switch_active,
            r.orders_checked == 0,
            r.orders_rejected == 0,
            r.orders_this_second == 0,
    {
        RiskManager {
            limits,
            position: Position {
                symbol: Symbol::new(""),
                quantity: 0,
                avg_price: 0,
                unrealized_pnl: 0,
                realized_pnl: 0,
                last_update: 0,
            },
            open_orders: Vec::new(),
            orders_this_second: 0,
            current_second: 0,
            daily_realized_pnl: 0,
            peak_equity: 0,
            kill_switch_active: false,
            orders_checked: 0,
            orders_rejected: 0,
        }
    }

    /// Run every pre-trade check against the wall-clock second `now_s`.
    /// The verdict is exactly `spec_check` of the pre-state, the order and
    /// `now_s`; the state moves as `spec_check_post` says.
    pub fn check_order_at(&mut self, order: &Order, now_s: u64) -> (r: RiskCheckResult)
        requires
            old(self).wf(),
            order.wf(),
            0 <= order.price <= VALUE_LIMIT,
        ensures
            final(self).wf(),
            r.passed <==> (spec_check(*old(self), *order, now_s) is None),
            r.violation == spec_check(*old(self), *order, now_s),
            r.message@ == spec_violation_message(r.violation),
            spec_check_post(*old(self), *final(self), *order, now_s),
    {
        self.orders_checked = wrap_inc(self.orders_checked);
        if self.kill_switch_active {
            self.orders_rejected = wrap_inc(self.orders_rejected);
            return RiskCheckResult::fail(RiskViolation::KillSwitchActive, "Kill switch is active");
        }
        if self.limits.max_position_qty != 0 {
            let potential = match order.side {
                Side::Buy => self.position.quantity + order.quantity,
                Side::Sell => self.position.quantity - order.quantity,
            };
            let abs_potential = if potential >= 0 {
                potential
            } else {
                -potential
            };
            if abs_potential > self.limits.max_position_qty {
                self.orders_rejected = wrap_inc(self.orders_rejected);
                return RiskCheckResult::fail(
                    RiskViolation::PositionLimit,
                    "Position limit exceeded",
                );
            }
        }
        if self.limits.max_order_qty > 0 && order.quantity > self.limits.max_order_qty {
            self.orders_rejected = wrap_inc(self.orders_rejected);
            return RiskCheckResult::fail(RiskViolation::OrderSizeLimit, "Order size exceeds limit");
        }
        if self.limits.max_order_value > 0 {
            let value = div_wide(mul_wide(order.quantity, order.price), crate::PRECISION as i128);
            if value > self.limits.max_order_value as i128 {
                self.orders_rejected = wrap_inc(self.orders_rejected);
                return RiskCheckResult::fail(
                    RiskViolation::OrderValueLimit,
                    "Order value exceeds limit",
                );
            }
        }
        if self.limits.max_orders_per_second != 0 {
            let count = if now_s != self.current_second {
                self.current_second = now_s;
                0u64
            } else {
                self.orders_this_second
            };
            self.orders_this_second = wrap_inc(count);
            if count >= self.limits.max_orders_per_second as u64 {
                self.orders_rejected = wrap_inc(self.orders_rejected);
                return RiskCheckResult::fail(RiskViolation::RateLimit, "Rate limit exceeded");
            }
        }
        if self.limits.max_open_orders != 0 && self.open_orders.len()
            >= self.limits.max_open_orders as usize {
            self.orders_rejected = wrap_inc(self.orders_rejected);
            return RiskCheckResult::fail(RiskViolation::OpenOrdersLimit, "Open orders limit reached");
        }
        if self.limits.max_daily_loss != 0 && self.daily_realized_pnl <= -(self.limits.max_daily_loss
            as i128) {
            self.kill_switch_active = true;
            self.orders_rejected = wrap_inc(self.orders_rejected);
            return RiskCheckResult::fail(RiskViolation::DailyLossLimit, "Daily loss limit reached");
        }
        RiskCheckResult::pass()
    }

    /// Run every pre-trade check against the wall clock. An active kill
    /// switch fails the order whatever the clock says.
    pub fn check_order(&mut self, order: &Order) -> (r: RiskCheckResult)
        requires
            old(self).wf(),
            order.wf(),
            0 <= order.price <= VALUE_LIMIT,
        ensures
            final(self).wf(),
            exists|t: u64|
                {
                    &&& r.passed <==> (#[trigger] spec_check(*old(self), *order, t) is None)
                    &&& r.violation == spec_check(*old(self), *order, t)
                    &&& spec_check_post(*old(self), *final(self), *order, t)
                },
            r.message@ == spec_violation_message(r.violation),
            old(self).kill_switch_active ==> !r.passed && r.violation == Some(
                RiskViolation::KillSwitchActive,
            ),
            final(self).position == old(self).position,
            final(self).open_orders == old(self).open_orders,
            final(self).limits == old(self).limits,
            final(self).kill_switch_active == old(self).kill_switch_active || !r.passed,
    {
        let now_s = now_millis() / 1000;
        let r = self.check_order_at(order, now_s);
        proof {
            assert(spec_check_post(*old(self), *self, *order, now_s));
        }
        r
    }

    /// Current signed position.
    pub fn get_position(&self) -> (r: Quantity)
        ensures
            r == self.position.quantity,
    {
        self.position.quantity
    }

    /// Latch the kill switch: every later check fails until a human clears
    /// it.
    pub fn activate_kill_switch(&mut self, _reason: &str)
        ensures
            *final(self) == (RiskManager { kill_switch_active: true, ..*old(self) }),
    {
        self.kill_switch_active = true;
    }

    /// Clear the kill switch; the only reset path, for a human to call.
    pub fn deactivate_kill_switch(&mut self)
        ensures
            *final(self) == (RiskManager { kill_switch_active: false, ..*old(self) }),
    {
        self.kill_switch_active = false;
    }

    /// Whether the kill switch is latched.
    pub fn is_kill_switch_active(&self) -> (r: bool)
        ensures
            r == self.kill_switch_active,
    {
        self.kill_switch_active
    }

    /// Track an order that went out.
    pub fn on_order_sent(&mut self, order: Order)
        requires
            old(self).wf(),
        ensures
            final(self).wf(),
            final(self).open_orders@.len() <= old(self).open_orders@.len() + 1,
            (exists|j: int|
                0 <= j < old(self).open_orders@.len() && (#[trigger] old(
                    self,
                ).open_orders@[j].id) == order.id) ==> exists|j: int|
                0 <= j < old(self).open_orders@.len() && (#[trigger] old(self).open_orders@[j].id)
                    == order.id && final(self).open_orders@ == old(self).open_orders@.update(
                    j,
                    order,
                ),
            (forall|j: int|
                0 <= j < old(self).open_orders@.len() ==> (#[trigger] old(self).open_orders@[j].id)
                    != order.id) ==> final(self).open_orders@ == old(self).open_orders@.push(order),
            final(self).position == old(self).position,
            final(self).limits == old(self).limits,
            final(self).kill_switch_active == old(self).kill_switch_active,
    {
        let n = self.open_orders.len();
        let mut i: usize = 0;
        while i < n && self.open_orders[i].id != order.id
            invariant
                n == self.open_orders@.len(),
                i <= n,
                forall|j: int| 0 <= j < i ==> (#[trigger] self.open_orders@[j].id) != order.id,
                self == old(self),
            decreases n - i,
        {
            i = i + 1;
        }
        if i < n {
            let ghost s0 = self.open_orders@;
            let ghost oid = order.id;
            assert(s0[i as int].id == oid);
            self.open_orders[i] = order;
            proof {
                assert forall|a: int, b: int|
                    0 <= a < b < self.open_orders@.len() implies (#[trigger] self.open_orders@[a].id)
                    != (#[trigger] self.open_orders@[b].id) by {
                    assert(s0[a].id != s0[b].id);
                }
            }
        } else {
            self.open_orders.push(order);
            proof {
                let s1 = self.open_orders@;
                assert forall|a: int, b: int|
                    0 <= a < b < s1.len() implies (#[trigger] s1[a].id) != (#[trigger] s1[b].id) by {
                    if b < s1.len() - 1 {
                        assert(old(self).open_orders@[a].id != old(self).open_orders@[b].id);
                    } else {
                        assert(s1[a] == old(self).open_orders@[a]);
                    }
                }
            }
        }
    }

    /// Forget an open order that was cancelled.
    pub fn on_order_canceled(&mut self, order_id: OrderId)
        requires
            old(self).wf(),
        ensures
            final(self).wf(),
            (forall|j: int|
                0 <= j < old(self).open_orders@.len() ==> (#[trigger] old(self).open_orders@[j].id)
                    != order_id) ==> *final(self) == *old(self),
            (exists|j: int|
                0 <= j < old(self).open_orders@.len() && (#[trigger] old(self).open_orders@[j].id)
                    == order_id) ==> exists|j: int|
                0 <= j < old(self).open_orders@.len() && (#[trigger] old(self).open_orders@[j].id)
                    == order_id && final(self).open_orders@ == old(self).open_orders@.remove(j),
            final(self).position == old(self).position,
            final(self).kill_switch_active == old(self).kill_switch_active,
    {
        let n = self.open_orders.len();
        let mut i: usize = 0;
        while i < n && self.open_orders[i].id != order_id
            invariant
                n == self.open_orders@.len(),
                i <= n,
                forall|j: int| 0 <= j < i ==> (#[trigger] self.open_orders@[j].id) != order_id,
                self == old(self),
            decreases n - i,
        {
            i = i + 1;
        }
        if i < n {
            let ghost s0 = self.open_orders@;
            assert(s0[i as int].id == order_id);
            self.open_orders.remove(i);
            proof {
                s0.remove_ensures(i as int);
                assert forall|a: int, b: int|
                    0 <= a < b < self.open_orders@.len() implies (#[trigger] self.open_orders@[a].id)
                    != (#[trigger] self.open_orders@[b].id) by {
                    let a0 = if a < i as int {
                        a
                    } else {
                        a + 1
                    };
                    let b0 = if b < i as int {
                        b
                    } else {
                        b + 1
                    };
                    assert(self.open_orders@[a] == s0[a0]);
                    assert(self.open_orders@[b] == s0[b0]);
                }
            }
        }
    }

    /// Fold a fill into the position: same-side fills move the cost basis
    /// by quantity-weighted average, opposite-side fills realise profit on
    /// the closed part, and a fill that crosses through zero re-bases the
    /// cost at the fill price. Afterwards the equity peak and drawdown
    /// kill switch are updated.
    pub fn on_fill(&mut self, order: &Order, filled_qty: Quantity, fill_price: Price)
        requires
            old(self).wf(),
            0 < filled_qty <= VALUE_LIMIT,
            0 < fill_price <= VALUE_LIMIT,
            valid_position(old(self).position.quantity + filled_qty),
            valid_position(old(self).position.quantity - filled_qty),
        ensures
            final(self).wf(),
            ({
                let f = spec_fill(
                    old(self).position.quantity as int,
                    old(self).position.avg_price as int,
                    order.side,
                    filled_qty as int,
                    fill_price as int,
                );
                let daily1 = spec_sat128(old(self).daily_realized_pnl + f.2);
                let equity = spec_sat128(daily1 + old(self).position.unrealized_pnl);
                &&& final(self).position.quantity == f.0
                &&& final(self).position.avg_price == f.1
                &&& final(self).position.realized_pnl == spec_sat128(
                    old(self).position.realized_pnl + f.2,
                )
                &&& final(self).daily_realized_pnl == daily1
                &&& final(self).peak_equity == if equity > old(self).peak_equity {
                    equity
                } else {
                    old(self).peak_equity as int
                }
                &&& final(self).kill_switch_active == (old(self).kill_switch_active || (equity
                    <= old(self).peak_equity && old(self).limits.max_drawdown > 0 && spec_sat128(
                    old(self).peak_equity - equity,
                ) > old(self).limits.max_drawdown))
            }),
            final(self).limits == old(self).limits,
            final(self).open_orders == old(self).open_orders,
            final(self).orders_checked == old(self).orders_checked,
            final(self).position.unrealized_pnl == old(self).position.unrealized_pnl,
            final(self).position.symbol == old(self).position.symbol,
    {
        let q0 = self.position.quantity;
        let avg0 = self.position.avg_price;
        let mut pnl: i128 = 0;
        match order.side {
            Side::Buy => {
                if q0 >= 0 {
                    let new_qty = q0 + filled_qty;
                    let num = sat_add_i128(mul_wide(avg0, q0), mul_wide(fill_price, filled_qty));
                    proof {
                        lemma_weighted_avg_bounds(
                            avg0 as int,
                            q0 as int,
                            fill_price as int,
                            filled_qty as int,
                        );
                    }
                    self.position.avg_price = div_wide(num, new_qty as i128) as i64;
                    self.position.quantity = new_qty;
                } else {
                    let covered = if filled_qty <= -q0 {
                        filled_qty
                    } else {
                        -q0
                    };
                    pnl = div_wide(
                        mul_wide(covered, avg0 - fill_price),
                        crate::PRECISION as i128,
                    );
                    self.position.quantity = q0 + filled_qty;
                    if self.position.quantity > 0 {
                        self.position.avg_price = fill_price;
                    }
                }
            },
            Side::Sell => {
                if q0 <= 0 {
                    let new_qty = q0 - filled_qty;
                    let num = sat_add_i128(mul_wide(avg0, -q0), mul_wide(fill_price, filled_qty));
                    proof {
                        lemma_weighted_avg_bounds(
                            avg0 as int,
                            -q0 as int,
                            fill_price as int,
                            filled_qty as int,
                        );
                    }
                    self.position.avg_price = div_wide(num, -(new_qty as i128)) as i64;
                    self.position.quantity = new_qty;
                } else {
                    let closed = if filled_qty <= q0 {
                        filled_qty
                    } else {
                        q0
                    };
                    pnl = div_wide(
                        mul_wide(closed, fill_price - avg0),
                        crate::PRECISION as i128,
                    );
                    self.position.quantity = q0 - filled_qty;
                    if self.position.quantity < 0 {
                        self.position.avg_price = fill_price;
                    }
                }
            },
        }
        self.position.realized_pnl = sat_add_i128(self.position.realized_pnl, pnl);
        self.daily_realized_pnl = sat_add_i128(self.daily_realized_pnl, pnl);
        self.position.last_update = now_nanos();
        let equity = sat_add_i128(self.daily_realized_pnl, self.position.unrealized_pnl);
        if equity > self.peak_equity {
            self.peak_equity = equity;
        } else if self.limits.max_drawdown > 0 {
            let drawdown = sat_sub_i128(self.peak_equity, equity);
            if drawdown > self.limits.max_drawdown as i128 {
                self.kill_switch_active = true;
            }
        }
    }

    /// Zero the day's realised profit and re-base the equity peak.
    pub fn reset_daily_stats(&mut self)
        ensures
            *final(self) == (RiskManager {
                daily_realized_pnl: 0,
                peak_equity: old(self).position.unrealized_pnl,
                ..*old(self)
            }),
    {
        self.daily_realized_pnl = 0;
        self.peak_equity = self.position.unrealized_pnl;
    }

    /// How many orders have been checked.
    pub fn orders_checked(&self) -> (r: u64)
        ensures
            r == self.orders_checked,
    {
        self.orders_checked
    }

    /// How many orders have been rejected.
    pub fn orders_rejected(&self) -> (r: u64)
        ensures
            r == self.orders_rejected,
    {
        self.orders_rejected
    }
}

// ============================================================================
// Laws
// ============================================================================

/// The pre-trade check is deterministic: two calls from the same state,
/// for the same order, in the same wall-clock second, reach the same
/// verdict and leave the same state. `check_order_at` returns exactly
/// `spec_check` of those three and moves the state exactly as
/// `spec_check_post` says, and that relation admits a single post-state.
pub proof fn lemma_check_order_deterministic(
    m1: RiskManager,
    m2: RiskManager,
    p1: RiskManager,
    p2: RiskManager,
    o1: Order,
    o2: Order,
    t1: u64,
    t2: u64,
)
    requires
        m1 == m2,
        o1 == o2,
        t1 == t2,
        spec_check_post(m1, p1, o1, t1),
        spec_check_post(m2, p2, o2, t2),
    ensures
        spec_check(m1, o1, t1) == spec_check(m2, o2, t2),
        p1 == p2,
{
}

/// Filling `Buy q` at one price and then `Sell q` at another, starting
/// flat, returns the position to zero, and the profit realised on the
/// round trip is `q * (sell - buy)`, rounded toward zero at fixed-point
/// scale 10^8. `on_fill` moves the position exactly by `spec_fill` and
/// adds exactly its realised leg to both profit accumulators, so this is
/// the law of that pair of calls.
pub proof fn lemma_fill_conserves_position(q: int, buy_px: int, sell_px: int)
    requires
        0 < q <= VALUE_LIMIT,
        0 < buy_px <= VALUE_LIMIT,
        0 < sell_px <= VALUE_LIMIT,
    ensures
        ({
            let f1 = spec_fill(0, 0, Side::Buy, q, buy_px);
            let f2 = spec_fill(f1.0, f1.1, Side::Sell, q, sell_px);
            &&& f1.2 == 0
            &&& f1.0 == q
            &&& f1.1 == buy_px
            &&& f2.0 == 0
            &&& f2.2 == div_trunc(q * (sell_px - buy_px), crate::PRECISION as int)
        }),
{
    let f1 = spec_fill(0, 0, Side::Buy, q, buy_px);
    assert((0 * 0 + buy_px * q) / q == buy_px) by {
        vstd::arithmetic::div_mod::lemma_div_multiples_vanish(buy_px, q);
        assert(buy_px * q == q * buy_px) by (nonlinear_arith);
    }
}

} // verus!
