//! Per-venue order book: aggregated price levels (L2) and, on top of them,
//! individual resting orders (L3).
//!
//! The book keeps two invariants. The structural one, `wf`, always holds:
//! both ladders are strictly sorted with admissible levels. The L3 one,
//! `l3_ok`, says each ladder is exactly the aggregation of the resting
//! orders; it is established by `new`, preserved by `add_order` and
//! `remove_order`, and deliberately not claimed by the L2 update path,
//! which overwrites levels wholesale.

use vstd::prelude::*;

use crate::fixed::{clamp_spec, div_trunc, div_wide, lemma_div_trunc_bound, min_i64, mul_wide, sat_i64};
use crate::ladder::{
    cnt_at, lemma_ordered_distinct, lemma_present_has_index, lemma_sum_at_found, qty_at, Ladder,
    PriceLevel,
};
use crate::types::{
    now_nanos, valid_price, valid_qty, Order, OrderId, Price, Quantity, SequenceNum, Side, Symbol,
    Timestamp, VALUE_LIMIT,
};

verus! {

// ============================================================================
// Spec: aggregating resting orders
// ============================================================================

/// Sum of `f` over the orders resting on `side` at price `p`.
pub open spec fn osum(s: Seq<Order>, side: Side, p: Price, f: spec_fn(Order) -> int) -> int
    decreases s.len(),
{
    if s.len() == 0 {
        0
    } else {
        osum(s.drop_last(), side, p, f) + if s.last().side == side && s.last().price == p {
            f(s.last())
        } else {
            0
        }
    }
}

/// Total remaining quantity resting on `side` at price `p`.
pub open spec fn orders_qty(s: Seq<Order>, side: Side, p: Price) -> int {
    osum(s, side, p, |o: Order| o.quantity - o.filled_qty)
}

/// Number of active orders resting on `side` at price `p`.
pub open spec fn orders_cnt(s: Seq<Order>, side: Side, p: Price) -> int {
    osum(s, side, p, |o: Order| if o.spec_is_active() { 1int } else { 0int })
}

/// An order the L3 layer accepts: unfilled, active, with admissible
/// price and quantity.
pub open spec fn l3_order_ok(o: Order) -> bool {
    &&& o.wf()
    &&& o.filled_qty == 0
    &&& o.spec_is_active()
    &&& valid_price(o.price)
    &&& valid_qty(o.quantity)
}

/// No two resting orders share an id.
pub open spec fn ids_distinct(s: Seq<Order>) -> bool {
    forall|i: int, j: int| 0 <= i < j < s.len() ==> (#[trigger] s[i].id) != (#[trigger] s[j].id)
}

/// Appending an order adds its contribution.
pub proof fn lemma_osum_push(s: Seq<Order>, o: Order, side: Side, p: Price, f: spec_fn(Order) -> int)
    ensures
        osum(s.push(o), side, p, f) == osum(s, side, p, f) + if o.side == side && o.price == p {
            f(o)
        } else {
            0
        },
{
    assert(s.push(o).drop_last() =~= s);
}

/// Removing an order subtracts its contribution.
pub proof fn lemma_osum_remove(s: Seq<Order>, i: int, side: Side, p: Price, f: spec_fn(Order) -> int)
    requires
        0 <= i < s.len(),
    ensures
        osum(s.remove(i), side, p, f) == osum(s, side, p, f) - if s[i].side == side && s[i].price
            == p {
            f(s[i])
        } else {
            0
        },
    decreases s.len(),
{
    if i == s.len() - 1 {
        assert(s.remove(i) =~= s.drop_last());
    } else {
        assert(s.remove(i).drop_last() =~= s.drop_last().remove(i));
        assert(s.remove(i).last() == s.last());
        lemma_osum_remove(s.drop_last(), i, side, p, f);
    }
}

/// Where every resting order is acceptable, the resting quantity at any
/// price covers the order count there, both are nonnegative, and neither
/// is positive without the other.
pub proof fn lemma_orders_qty_ge_cnt(s: Seq<Order>, side: Side, p: Price)
    requires
        forall|i: int| 0 <= i < s.len() ==> l3_order_ok(#[trigger] s[i]),
    ensures
        orders_qty(s, side, p) >= orders_cnt(s, side, p) >= 0,
        orders_cnt(s, side, p) == 0 ==> orders_qty(s, side, p) == 0,
    decreases s.len(),
{
    if s.len() > 0 {
        assert(forall|i: int|
            0 <= i < s.drop_last().len() ==> l3_order_ok(#[trigger] s.drop_last()[i]));
        lemma_orders_qty_ge_cnt(s.drop_last(), side, p);
    }
}

// ============================================================================
// Spec: snapshots
// ============================================================================

/// Quantity a snapshot lists at price `p` (entries at one price summed).
pub open spec fn snap_qty(l: Seq<(Price, Quantity)>, p: Price) -> int
    decreases l.len(),
{
    if l.len() == 0 {
        0
    } else {
        snap_qty(l.drop_last(), p) + if l.last().0 == p {
            l.last().1 as int
        } else {
            0
        }
    }
}

/// One more snapshot entry adds its contribution.
proof fn lemma_snap_qty_step(l: Seq<(Price, Quantity)>, i: int)
    requires
        0 <= i < l.len(),
    ensures
        forall|p: Price| #[trigger] snap_qty(l.take(i + 1), p) == snap_qty(l.take(i), p) + if l[i].0
            == p {
            l[i].1 as int
        } else {
            0
        },
{
    assert(l.take(i + 1).drop_last() =~= l.take(i));
    assert(l.take(i + 1).last() == l[i]);
}

/// With pairwise distinct prices, a prefix that stops before entry `i`
/// lists nothing at entry `i`'s price.
proof fn lemma_snap_qty_absent(l: Seq<(Price, Quantity)>, i: int)
    requires
        0 <= i < l.len(),
        forall|a: int, b: int| 0 <= a < b < l.len() ==> (#[trigger] l[a].0) != (#[trigger] l[b].0),
    ensures
        snap_qty(l.take(i), p0_of(l, i)) == 0,
{
    lemma_snap_qty_absent_rec(l.take(i), l[i].0);
}

/// Price of entry `i`, named so the absence lemma can speak of it.
spec fn p0_of(l: Seq<(Price, Quantity)>, i: int) -> Price {
    l[i].0
}

proof fn lemma_snap_qty_absent_rec(l: Seq<(Price, Quantity)>, p: Price)
    requires
        forall|a: int| 0 <= a < l.len() ==> (#[trigger] l[a].0) != p,
    ensures
        snap_qty(l, p) == 0,
    decreases l.len(),
{
    if l.len() > 0 {
        lemma_snap_qty_absent_rec(l.drop_last(), p);
    }
}

// ============================================================================
// The book
// ============================================================================

/// A single venue's book for one symbol.
pub struct OrderBook {
    pub symbol: Symbol,
    pub bids: Ladder,
    pub asks: Ladder,
    pub orders: Vec<Order>,
    pub last_update: Timestamp,
    pub sequence: SequenceNum,
}

impl OrderBook {
    /// Structural invariant: both ladders sorted the right way round,
    /// every level admissible.
    pub open spec fn wf(&self) -> bool {
        &&& self.bids.wf()
        &&& self.bids.desc == true
        &&& self.asks.wf()
        &&& self.asks.desc == false
    }

    /// L3 invariant: the ladders aggregate exactly the resting orders.
    pub open spec fn l3_ok(&self) -> bool {
        &&& forall|i: int| 0 <= i < self.orders@.len() ==> l3_order_ok(#[trigger] self.orders@[i])
        &&& ids_distinct(self.orders@)
        &&& forall|p: Price| #[trigger] qty_at(self.bids.levels@, p) == orders_qty(
            self.orders@,
            Side::Buy,
            p,
        )
        &&& forall|p: Price| #[trigger] cnt_at(self.bids.levels@, p) == orders_cnt(
            self.orders@,
            Side::Buy,
            p,
        )
        &&& forall|p: Price| #[trigger] qty_at(self.asks.levels@, p) == orders_qty(
            self.orders@,
            Side::Sell,
            p,
        )
        &&& forall|p: Price| #[trigger] cnt_at(self.asks.levels@, p) == orders_cnt(
            self.orders@,
            Side::Sell,
            p,
        )
    }

    /// No resting bid sits at or above any resting ask.
    pub open spec fn uncrossed(&self) -> bool {
        forall|pb: Price, pa: Price|
            (#[trigger] qty_at(self.bids.levels@, pb)) > 0 && (#[trigger] qty_at(
                self.asks.levels@,
                pa,
            )) > 0 ==> pb < pa
    }

    /// An empty book for `symbol`.
    pub fn new(symbol: Symbol) -> (r: OrderBook)
        ensures
            r.wf(),
            r.l3_ok(),
            r.uncrossed(),
            r.symbol == symbol,
            r.bids.levels@.len() == 0,
            r.asks.levels@.len() == 0,
            r.orders@.len() == 0,
            r.sequence == 0,
    {
        let r = OrderBook {
            symbol,
            bids: Ladder::new(true),
            asks: Ladder::new(false),
            orders: Vec::new(),
            last_update: 0,
            sequence: 0,
        };
        proof {
            assert forall|p: Price| #[trigger] qty_at(r.bids.levels@, p) == orders_qty(
                r.orders@,
                Side::Buy,
                p,
            ) by {}
            assert forall|p: Price| #[trigger] cnt_at(r.bids.levels@, p) == orders_cnt(
                r.orders@,
                Side::Buy,
                p,
            ) by {}
            assert forall|p: Price| #[trigger] qty_at(r.asks.levels@, p) == orders_qty(
                r.orders@,
                Side::Sell,
                p,
            ) by {}
            assert forall|p: Price| #[trigger] cnt_at(r.asks.levels@, p) == orders_cnt(
                r.orders@,
                Side::Sell,
                p,
            ) by {}
        }
        r
    }

    /// Overwrite (or, at quantity zero, remove) the bid level at `price`.
    ///
    /// The last clause is the book-shape law for the L2 path: an update
    /// that does not reach across the ask side leaves the book uncrossed.
    pub fn update_bid(&mut self, price: Price, quantity: Quantity)
        requires
            old(self).wf(),
            valid_price(price),
            0 <= quantity <= VALUE_LIMIT,
        ensures
            final(self).wf(),
            forall|p: Price| #[trigger] qty_at(final(self).bids.levels@, p) == if p == price {
                quantity as int
            } else {
                qty_at(old(self).bids.levels@, p)
            },
            forall|p: Price| #[trigger] cnt_at(final(self).bids.levels@, p) == if p == price {
                if quantity == 0 {
                    0int
                } else {
                    1int
                }
            } else {
                cnt_at(old(self).bids.levels@, p)
            },
            final(self).asks == old(self).asks,
            final(self).orders == old(self).orders,
            final(self).symbol == old(self).symbol,
            final(self).sequence == old(self).sequence,
            (old(self).uncrossed() && (quantity == 0 || forall|pa: Price|
                (#[trigger] qty_at(old(self).asks.levels@, pa)) > 0 ==> price < pa))
                ==> final(self).uncrossed(),
    {
        let ts = now_nanos();
        self.bids.set_level(price, quantity, 1, ts);
        self.last_update = ts;
        proof {
            if old(self).uncrossed() && (quantity == 0 || forall|pa: Price|
                (#[trigger] qty_at(old(self).asks.levels@, pa)) > 0 ==> price < pa) {
                assert forall|pb: Price, pa: Price|
                    (#[trigger] qty_at(self.bids.levels@, pb)) > 0 && (#[trigger] qty_at(
                        self.asks.levels@,
                        pa,
                    )) > 0 implies pb < pa by {
                    if pb != price {
                        assert(qty_at(old(self).bids.levels@, pb) > 0);
                    }
                }
            }
        }
    }

    /// Overwrite (or, at quantity zero, remove) the ask level at `price`.
    ///
    /// The last clause mirrors `update_bid`: an update that does not reach
    /// across the bid side leaves the book uncrossed.
    pub fn update_ask(&mut self, price: Price, quantity: Quantity)
        requires
            old(self).wf(),
            valid_price(price),
            0 <= quantity <= VALUE_LIMIT,
        ensures
            final(self).wf(),
            forall|p: Price| #[trigger] qty_at(final(self).asks.levels@, p) == if p == price {
                quantity as int
            } else {
                qty_at(old(self).asks.levels@, p)
            },
            forall|p: Price| #[trigger] cnt_at(final(self).asks.levels@, p) == if p == price {
                if quantity == 0 {
                    0int
                } else {
                    1int
                }
            } else {
                cnt_at(old(self).asks.levels@, p)
            },
            final(self).bids == old(self).bids,
            final(self).orders == old(self).orders,
            final(self).symbol == old(self).symbol,
            final(self).sequence == old(self).sequence,
            (old(self).uncrossed() && (quantity == 0 || forall|pb: Price|
                (#[trigger] qty_at(old(self).bids.levels@, pb)) > 0 ==> pb < price))
                ==> final(self).uncrossed(),
    {
        let ts = now_nanos();
        self.asks.set_level(price, quantity, 1, ts);
        self.last_update = ts;
        proof {
            if old(self).uncrossed() && (quantity == 0 || forall|pb: Price|
                (#[trigger] qty_at(old(self).bids.levels@, pb)) > 0 ==> pb < price) {
                assert forall|pb: Price, pa: Price|
                    (#[trigger] qty_at(self.bids.levels@, pb)) > 0 && (#[trigger] qty_at(
                        self.asks.levels@,
                        pa,
                    )) > 0 implies pb < pa by {
                    if pa != price {
                        assert(qty_at(old(self).asks.levels@, pa) > 0);
                    }
                }
            }
        }
    }

    /// Drop every bid level.
    pub fn clear_bids(&mut self)
        requires
            old(self).wf(),
        ensures
            final(self).wf(),
            final(self).bids.levels@.len() == 0,
            final(self).asks == old(self).asks,
            final(self).orders == old(self).orders,
            final(self).symbol == old(self).symbol,
    {
        self.bids.clear();
    }

    /// Replace both sides wholesale with the given levels (a zero
    /// quantity leaves its price out).
    pub fn apply_snapshot(&mut self, bids: Vec<(Price, Quantity)>, asks: Vec<(Price, Quantity)>)
        requires
            old(self).wf(),
            forall|i: int, j: int|
                0 <= i < j < bids@.len() ==> (#[trigger] bids@[i].0) != (#[trigger] bids@[j].0),
            forall|i: int, j: int|
                0 <= i < j < asks@.len() ==> (#[trigger] asks@[i].0) != (#[trigger] asks@[j].0),
            forall|i: int|
                0 <= i < bids@.len() ==> valid_price((#[trigger] bids@[i]).0) && 0 <= bids@[i].1
                    <= VALUE_LIMIT,
            forall|i: int|
                0 <= i < asks@.len() ==> valid_price((#[trigger] asks@[i]).0) && 0 <= asks@[i].1
                    <= VALUE_LIMIT,
        ensures
            final(self).wf(),
            forall|p: Price| #[trigger] qty_at(final(self).bids.levels@, p) == snap_qty(bids@, p),
            forall|p: Price| #[trigger] qty_at(final(self).asks.levels@, p) == snap_qty(asks@, p),
            forall|p: Price| #[trigger] cnt_at(final(self).bids.levels@, p) == if snap_qty(
                bids@,
                p,
            ) != 0 {
                1int
            } else {
                0int
            },
            forall|p: Price| #[trigger] cnt_at(final(self).asks.levels@, p) == if snap_qty(
                asks@,
                p,
            ) != 0 {
                1int
            } else {
                0int
            },
            final(self).orders == old(self).orders,
            final(self).symbol == old(self).symbol,
    {
        let ts = now_nanos();
        self.bids.clear();
        self.asks.clear();
        let nb = bids.len();
        let mut i: usize = 0;
        while i < nb
            invariant
                nb == bids@.len(),
                i <= nb,
                self.wf(),
                self.asks.levels@.len() == 0,
                self.orders == old(self).orders,
                self.symbol == old(self).symbol,
                forall|i2: int, j2: int|
                    0 <= i2 < j2 < bids@.len() ==> (#[trigger] bids@[i2].0) != (
                    #[trigger] bids@[j2].0),
                forall|k: int|
                    0 <= k < bids@.len() ==> valid_price((#[trigger] bids@[k]).0) && 0 <= bids@[k].1
                        <= VALUE_LIMIT,
                forall|p: Price| #[trigger] qty_at(self.bids.levels@, p) == snap_qty(
                    bids@.take(i as int),
                    p,
                ),
                forall|p: Price| #[trigger] cnt_at(self.bids.levels@, p) == if snap_qty(
                    bids@.take(i as int),
                    p,
                ) != 0 {
                    1int
                } else {
                    0int
                },
            decreases nb - i,
        {
            let (price, qty) = bids[i];
            self.bids.set_level(price, qty, 1, ts);
            proof {
                lemma_snap_qty_step(bids@, i as int);
                lemma_snap_qty_absent(bids@, i as int);
            }
            i = i + 1;
        }
        proof {
            assert(bids@.take(nb as int) =~= bids@);
        }
        let na = asks.len();
        let mut j: usize = 0;
        while j < na
            invariant
                na == asks@.len(),
                j <= na,
                self.wf(),
                self.orders == old(self).orders,
                self.symbol == old(self).symbol,
                forall|p: Price| #[trigger] qty_at(self.bids.levels@, p) == snap_qty(bids@, p),
                forall|p: Price| #[trigger] cnt_at(self.bids.levels@, p) == if snap_qty(bids@, p)
                    != 0 {
                    1int
                } else {
                    0int
                },
                forall|i2: int, j2: int|
                    0 <= i2 < j2 < asks@.len() ==> (#[trigger] asks@[i2].0) != (
                    #[trigger] asks@[j2].0),
                forall|k: int|
                    0 <= k < asks@.len() ==> valid_price((#[trigger] asks@[k]).0) && 0 <= asks@[k].1
                        <= VALUE_LIMIT,
                forall|p: Price| #[trigger] qty_at(self.asks.levels@, p) == snap_qty(
                    asks@.take(j as int),
                    p,
                ),
                forall|p: Price| #[trigger] cnt_at(self.asks.levels@, p) == if snap_qty(
                    asks@.take(j as int),
                    p,
                ) != 0 {
                    1int
                } else {
                    0int
                },
            decreases na - j,
        {
            let (price, qty) = asks[j];
            self.asks.set_level(price, qty, 1, ts);
            proof {
                lemma_snap_qty_step(asks@, j as int);
                lemma_snap_qty_absent(asks@, j as int);
            }
            j = j + 1;
        }
        self.last_update = ts;
        proof {
            assert(asks@.take(na as int) =~= asks@);
        }
    }

    /// Rest an individual order on the book, folding it into its price
    /// level. The L3 invariant `l3_ok` is preserved, so every level keeps
    /// carrying exactly the remaining quantity and active-order count of
    /// the orders at its price (`lemma_levels_aggregate_orders` states
    /// that law level by level).
    pub fn add_order(&mut self, order: Order)
        requires
            old(self).wf(),
            old(self).l3_ok(),
            l3_order_ok(order),
            forall|i: int| 0 <= i < old(self).orders@.len()
                ==> (#[trigger] old(self).orders@[i].id) != order.id,
            orders_qty(old(self).orders@, order.side, order.price) + order.quantity <= VALUE_LIMIT,
            orders_cnt(old(self).orders@, order.side, order.price) < u32::MAX,
        ensures
            final(self).wf(),
            final(self).l3_ok(),
            final(self).orders@ == old(self).orders@.push(order),
            final(self).symbol == old(self).symbol,
            forall|p: Price| #[trigger] qty_at(final(self).bids.levels@, p) == qty_at(
                old(self).bids.levels@,
                p,
            ) + if order.side == Side::Buy && p == order.price {
                order.quantity as int
            } else {
                0
            },
            forall|p: Price| #[trigger] qty_at(final(self).asks.levels@, p) == qty_at(
                old(self).asks.levels@,
                p,
            ) + if order.side == Side::Sell && p == order.price {
                order.quantity as int
            } else {
                0
            },
            forall|p: Price| #[trigger] cnt_at(final(self).bids.levels@, p) == cnt_at(
                old(self).bids.levels@,
                p,
            ) + if order.side == Side::Buy && p == order.price {
                1int
            } else {
                0int
            },
            forall|p: Price| #[trigger] cnt_at(final(self).asks.levels@, p) == cnt_at(
                old(self).asks.levels@,
                p,
            ) + if order.side == Side::Sell && p == order.price {
                1int
            } else {
                0int
            },
    {
        let ts = now_nanos();
        let price = order.price;
        let qty = order.quantity;
        let side = order.side;
        match side {
            Side::Buy => {
                self.bids.add_to_level(price, qty, ts);
            },
            Side::Sell => {
                self.asks.add_to_level(price, qty, ts);
            },
        }
        self.orders.push(order);
        self.last_update = ts;
        proof {
            let s1 = self.orders@;
            let s0 = old(self).orders@;
            assert forall|p: Price| #[trigger] orders_qty(s1, Side::Buy, p) == orders_qty(
                s0,
                Side::Buy,
                p,
            ) + if order.side == Side::Buy && p == order.price {
                order.quantity as int
            } else {
                0
            } by {
                lemma_osum_push(s0, order, Side::Buy, p, |o: Order| o.quantity - o.filled_qty);
            }
            assert forall|p: Price| #[trigger] orders_cnt(s1, Side::Buy, p) == orders_cnt(
                s0,
                Side::Buy,
                p,
            ) + if order.side == Side::Buy && p == order.price {
                1int
            } else {
                0int
            } by {
                lemma_osum_push(
                    s0,
                    order,
                    Side::Buy,
                    p,
                    |o: Order| if o.spec_is_active() { 1int } else { 0int },
                );
            }
            assert forall|p: Price| #[trigger] orders_qty(s1, Side::Sell, p) == orders_qty(
                s0,
                Side::Sell,
                p,
            ) + if order.side == Side::Sell && p == order.price {
                order.quantity as int
            } else {
                0
            } by {
                lemma_osum_push(s0, order, Side::Sell, p, |o: Order| o.quantity - o.filled_qty);
            }
            assert forall|p: Price| #[trigger] orders_cnt(s1, Side::Sell, p) == orders_cnt(
                s0,
                Side::Sell,
                p,
            ) + if order.side == Side::Sell && p == order.price {
                1int
            } else {
                0int
            } by {
                lemma_osum_push(
                    s0,
                    order,
                    Side::Sell,
                    p,
                    |o: Order| if o.spec_is_active() { 1int } else { 0int },
                );
            }
        }
    }

    /// Take the order with this id off the book, unwinding its share of
    /// its price level; `None` when no such order rests here.
    pub fn remove_order(&mut self, order_id: OrderId) -> (r: Option<Order>)
        requires
            old(self).wf(),
            old(self).l3_ok(),
        ensures
            final(self).wf(),
            final(self).l3_ok(),
            (r is None) <==> (forall|j: int|
                0 <= j < old(self).orders@.len() ==> (#[trigger] old(self).orders@[j].id)
                    != order_id),
            r is None ==> *final(self) == *old(self),
            r is Some ==> {
                let o = r->Some_0;
                &&& o.id == order_id
                &&& exists|i: int|
                    0 <= i < old(self).orders@.len() && old(self).orders@[i] == o
                        && final(self).orders@ == old(self).orders@.remove(i)
            },
            final(self).symbol == old(self).symbol,
    {
        let n = self.orders.len();
        let mut i: usize = 0;
        while i < n && self.orders[i].id != order_id
            invariant
                n == self.orders@.len(),
                i <= n,
                forall|j: int| 0 <= j < i ==> (#[trigger] self.orders@[j].id) != order_id,
                self == old(self),
            decreases n - i,
        {
            i = i + 1;
        }
        if i == n {
            return None;
        }
        assert(self.orders@[i as int].id == order_id);
        let ghost s0 = self.orders@;
        let o = self.orders.remove(i);
        let rem = o.quantity - o.filled_qty;
        proof {
            s0.remove_ensures(i as int);
            lemma_orders_qty_ge_cnt(s0, o.side, o.price);
            assert(forall|k: int|
                0 <= k < self.orders@.len() ==> l3_order_ok(#[trigger] self.orders@[k]));
            lemma_orders_qty_ge_cnt(self.orders@, Side::Buy, o.price);
            lemma_orders_qty_ge_cnt(self.orders@, Side::Sell, o.price);
        }
        match o.side {
            Side::Buy => {
                self.bids.remove_from_level(o.price, rem);
            },
            Side::Sell => {
                self.asks.remove_from_level(o.price, rem);
            },
        }
        self.last_update = now_nanos();
        proof {
            let s1 = self.orders@;
            assert forall|side: Side, p: Price|
                #[trigger] orders_qty(s1, side, p) == orders_qty(s0, side, p) - (if o.side == side
                    && o.price == p {
                    o.quantity - o.filled_qty
                } else {
                    0
                }) && #[trigger] orders_cnt(s1, side, p) == orders_cnt(s0, side, p) - (if o.side
                    == side && o.price == p {
                    1int
                } else {
                    0int
                }) by {
                lemma_osum_remove(s0, i as int, side, p, |x: Order| x.quantity - x.filled_qty);
                lemma_osum_remove(
                    s0,
                    i as int,
                    side,
                    p,
                    |x: Order| if x.spec_is_active() { 1int } else { 0int },
                );
            }
            assert(ids_distinct(s1)) by {
                assert forall|a: int, b: int|
                    0 <= a < b < s1.len() implies (#[trigger] s1[a].id) != (#[trigger] s1[b].id) by {
                    if a < i as int {
                        assert(s1[a] == s0[a]);
                    } else {
                        assert(s1[a] == s0[a + 1]);
                    }
                    if b < i as int {
                        assert(s1[b] == s0[b]);
                    } else {
                        assert(s1[b] == s0[b + 1]);
                    }
                }
            }
            assert forall|side: Side, p: Price|
                orders_qty(s1, side, p) >= #[trigger] orders_cnt(s1, side, p) >= 0 && (orders_cnt(
                    s1,
                    side,
                    p,
                ) == 0 ==> orders_qty(s1, side, p) == 0) by {
                lemma_orders_qty_ge_cnt(s1, side, p);
            }
            assert forall|p: Price| #[trigger] qty_at(self.bids.levels@, p) == orders_qty(
                s1,
                Side::Buy,
                p,
            ) by {
                lemma_orders_qty_ge_cnt(s0, Side::Buy, p);
                lemma_orders_qty_ge_cnt(s1, Side::Buy, p);
                assert(cnt_at(old(self).bids.levels@, p) == orders_cnt(s0, Side::Buy, p));
            }
            assert forall|p: Price| #[trigger] cnt_at(self.bids.levels@, p) == orders_cnt(
                s1,
                Side::Buy,
                p,
            ) by {
                lemma_orders_qty_ge_cnt(s0, Side::Buy, p);
                lemma_orders_qty_ge_cnt(s1, Side::Buy, p);
            }
            assert forall|p: Price| #[trigger] qty_at(self.asks.levels@, p) == orders_qty(
                s1,
                Side::Sell,
                p,
            ) by {
                lemma_orders_qty_ge_cnt(s0, Side::Sell, p);
                lemma_orders_qty_ge_cnt(s1, Side::Sell, p);
                assert(cnt_at(old(self).asks.levels@, p) == orders_cnt(s0, Side::Sell, p));
            }
            assert forall|p: Price| #[trigger] cnt_at(self.asks.levels@, p) == orders_cnt(
                s1,
                Side::Sell,
                p,
            ) by {
                lemma_orders_qty_ge_cnt(s0, Side::Sell, p);
                lemma_orders_qty_ge_cnt(s1, Side::Sell, p);
            }
        }
        Some(o)
    }

    /// Drop every ask level.
    pub fn clear_asks(&mut self)
        requires
            old(self).wf(),
        ensures
            final(self).wf(),
            final(self).asks.levels@.len() == 0,
            final(self).bids == old(self).bids,
            final(self).orders == old(self).orders,
            final(self).symbol == old(self).symbol,
    {
        self.asks.clear();
    }

    // ========================================================================
    // Queries
    // ========================================================================

    /// Best bid price: the highest price with resting bid quantity.
    pub open spec fn spec_best_bid(&self) -> Option<Price> {
        if self.bids.levels@.len() == 0 {
            None
        } else {
            Some(self.bids.levels@[0].price)
        }
    }

    /// Best ask price: the lowest price with resting ask quantity.
    pub open spec fn spec_best_ask(&self) -> Option<Price> {
        if self.asks.levels@.len() == 0 {
            None
        } else {
            Some(self.asks.levels@[0].price)
        }
    }

    /// Midpoint of the inside quotes, rounded toward zero.
    pub open spec fn spec_mid_price(&self) -> Option<Price> {
        match (self.spec_best_bid(), self.spec_best_ask()) {
            (Some(b), Some(a)) => Some(((b + a) / 2) as Price),
            _ => None,
        }
    }

    /// Inside spread; negative when the book is crossed.
    pub open spec fn spec_spread(&self) -> Option<Price> {
        match (self.spec_best_bid(), self.spec_best_ask()) {
            (Some(b), Some(a)) => Some((a - b) as Price),
            _ => None,
        }
    }

    /// A book is valid when it is empty on a side or not crossed.
    pub open spec fn spec_is_valid(&self) -> bool {
        match (self.spec_best_bid(), self.spec_best_ask()) {
            (Some(b), Some(a)) => b < a,
            _ => true,
        }
    }

    /// Best bid price, with nothing resting above it.
    pub fn best_bid(&self) -> (r: Option<Price>)
        requires
            self.wf(),
        ensures
            r == self.spec_best_bid(),
            r is Some ==> valid_price(r->Some_0) && qty_at(self.bids.levels@, r->Some_0) > 0
                && forall|p: Price| p > r->Some_0 ==> #[trigger] qty_at(self.bids.levels@, p) == 0,
            r is None ==> forall|p: Price| #[trigger] qty_at(self.bids.levels@, p) == 0,
    {
        let b = self.bids.best();
        proof {
            if b is None {
                assert forall|p: Price| #[trigger] qty_at(self.bids.levels@, p) == 0 by {
                    if qty_at(self.bids.levels@, p) != 0 {
                        lemma_present_has_index(self.bids.levels@, p);
                    }
                }
            }
        }
        match b {
            Some(l) => Some(l.price),
            None => None,
        }
    }

    /// Best ask price, with nothing resting below it.
    pub fn best_ask(&self) -> (r: Option<Price>)
        requires
            self.wf(),
        ensures
            r == self.spec_best_ask(),
            r is Some ==> valid_price(r->Some_0) && qty_at(self.asks.levels@, r->Some_0) > 0
                && forall|p: Price| p < r->Some_0 ==> #[trigger] qty_at(self.asks.levels@, p) == 0,
            r is None ==> forall|p: Price| #[trigger] qty_at(self.asks.levels@, p) == 0,
    {
        let a = self.asks.best();
        proof {
            if a is None {
                assert forall|p: Price| #[trigger] qty_at(self.asks.levels@, p) == 0 by {
                    if qty_at(self.asks.levels@, p) != 0 {
                        lemma_present_has_index(self.asks.levels@, p);
                    }
                }
            }
        }
        match a {
            Some(l) => Some(l.price),
            None => None,
        }
    }

    /// Quantity resting at the best bid.
    pub fn best_bid_qty(&self) -> (r: Option<Quantity>)
        requires
            self.wf(),
        ensures
            r == if self.bids.levels@.len() == 0 {
                None::<Quantity>
            } else {
                Some(self.bids.levels@[0].quantity)
            },
    {
        match self.bids.best() {
            Some(l) => Some(l.quantity),
            None => None,
        }
    }

    /// Quantity resting at the best ask.
    pub fn best_ask_qty(&self) -> (r: Option<Quantity>)
        requires
            self.wf(),
        ensures
            r == if self.asks.levels@.len() == 0 {
                None::<Quantity>
            } else {
                Some(self.asks.levels@[0].quantity)
            },
    {
        match self.asks.best() {
            Some(l) => Some(l.quantity),
            None => None,
        }
    }

    /// Midpoint of the inside quotes.
    pub fn mid_price(&self) -> (r: Option<Price>)
        requires
            self.wf(),
        ensures
            r == self.spec_mid_price(),
    {
        match (self.best_bid(), self.best_ask()) {
            (Some(b), Some(a)) => Some((b + a) / 2),
            _ => None,
        }
    }

    /// Inside spread.
    pub fn spread(&self) -> (r: Option<Price>)
        requires
            self.wf(),
        ensures
            r == self.spec_spread(),
    {
        match (self.best_bid(), self.best_ask()) {
            (Some(b), Some(a)) => Some(a - b),
            _ => None,
        }
    }

    /// Inside spread in basis points at fixed-point scale 10^8:
    /// `10^4 * 10^8 * spread / mid`, rounded toward zero.
    pub fn spread_bps(&self) -> (r: Option<i64>)
        requires
            self.wf(),
        ensures
            r == match (self.spec_best_bid(), self.spec_best_ask()) {
                (Some(b), Some(a)) => Some(
                    clamp_spec(
                        div_trunc((a - b) * crate::BPS_MUL, (b + a) / 2),
                        i64::MIN as int,
                        i64::MAX as int,
                    ) as i64,
                ),
                _ => None::<i64>,
            },
    {
        match (self.best_bid(), self.best_ask()) {
            (Some(b), Some(a)) => {
                let mid = (b + a) / 2;
                let num = mul_wide(a - b, crate::BPS_MUL);
                let q = div_wide(num, mid as i128);
                Some(sat_i64(q))
            },
            _ => None,
        }
    }

    /// Level `depth` places down the bid side.
    pub fn bid_level(&self, depth: usize) -> (r: Option<PriceLevel>)
        ensures
            r == if depth < self.bids.levels@.len() {
                Some(self.bids.levels@[depth as int])
            } else {
                None::<PriceLevel>
            },
    {
        self.bids.level_at_depth(depth)
    }

    /// Level `depth` places down the ask side.
    pub fn ask_level(&self, depth: usize) -> (r: Option<PriceLevel>)
        ensures
            r == if depth < self.asks.levels@.len() {
                Some(self.asks.levels@[depth as int])
            } else {
                None::<PriceLevel>
            },
    {
        self.asks.level_at_depth(depth)
    }

    /// Number of bid levels.
    pub fn bid_depth(&self) -> (r: usize)
        ensures
            r == self.bids.levels@.len(),
    {
        self.bids.len()
    }

    /// Number of ask levels.
    pub fn ask_depth(&self) -> (r: usize)
        ensures
            r == self.asks.levels@.len(),
    {
        self.asks.len()
    }

    /// Whether the book is uncrossed (an empty side counts as valid).
    pub fn is_valid(&self) -> (r: bool)
        requires
            self.wf(),
        ensures
            r == self.spec_is_valid(),
    {
        match (self.best_bid(), self.best_ask()) {
            (Some(b), Some(a)) => b < a,
            _ => true,
        }
    }

    /// The symbol this book is for.
    pub fn symbol(&self) -> (r: &Symbol)
        ensures
            *r == self.symbol,
    {
        &self.symbol
    }

    /// Time of the last mutation, as stamped by the wall clock.
    pub fn last_update(&self) -> (r: Timestamp)
        ensures
            r == self.last_update,
    {
        self.last_update
    }

    /// Sequence number of the last applied update.
    pub fn sequence(&self) -> (r: SequenceNum)
        ensures
            r == self.sequence,
    {
        self.sequence
    }

    /// Record the sequence number of an applied update.
    pub fn set_sequence(&mut self, seq: SequenceNum)
        ensures
            final(self).sequence == seq,
            *final(self) == (OrderBook { sequence: seq, ..*old(self) }),
    {
        self.sequence = seq;
    }
}

// ============================================================================
// Spec: walking a side for volume
// ============================================================================

/// Quantity filled by walking the levels front to back until `target` is
/// met (never more than `target`).
pub open spec fn fill_qty(s: Seq<PriceLevel>, target: int) -> int
    decreases s.len(),
{
    if target <= 0 || s.len() == 0 {
        0
    } else {
        let f = if target <= s[0].quantity {
            target
        } else {
            s[0].quantity as int
        };
        f + fill_qty(s.drop_first(), target - f)
    }
}

/// Cost of that walk: the sum of price times filled quantity per level.
pub open spec fn fill_value(s: Seq<PriceLevel>, target: int) -> int
    decreases s.len(),
{
    if target <= 0 || s.len() == 0 {
        0
    } else {
        let f = if target <= s[0].quantity {
            target
        } else {
            s[0].quantity as int
        };
        s[0].price * f + fill_value(s.drop_first(), target - f)
    }
}

/// The walk fills a nonnegative quantity up to the target, at a cost
/// bounded by the filled quantity times the price bound.
pub proof fn lemma_fill_bounds(s: Seq<PriceLevel>, target: int)
    requires
        levels_ok_seq(s),
        target >= 0,
    ensures
        0 <= fill_qty(s, target) <= target,
        0 <= fill_value(s, target) <= fill_qty(s, target) * VALUE_LIMIT,
    decreases s.len(),
{
    if target > 0 && s.len() > 0 {
        let f = if target <= s[0].quantity {
            target
        } else {
            s[0].quantity as int
        };
        assert(levels_ok_seq(s.drop_first()));
        lemma_fill_bounds(s.drop_first(), target - f);
        let fq = fill_qty(s.drop_first(), target - f);
        let fv = fill_value(s.drop_first(), target - f);
        assert(s[0].price * f <= f * VALUE_LIMIT) by (nonlinear_arith)
            requires
                0 < s[0].price <= VALUE_LIMIT,
                0 <= f,
        ;
        assert(s[0].price * f >= 0) by (nonlinear_arith)
            requires
                s[0].price > 0,
                f >= 0,
        ;
        assert(f * VALUE_LIMIT + fq * VALUE_LIMIT == (f + fq) * VALUE_LIMIT) by (nonlinear_arith);
    }
}

/// Total quantity resting in the first `n` levels.
pub open spec fn prefix_qty(s: Seq<PriceLevel>, n: int) -> int
    decreases n,
{
    if n <= 0 {
        0
    } else {
        prefix_qty(s, n - 1) + if n - 1 < s.len() {
            s[n - 1].quantity as int
        } else {
            0
        }
    }
}

/// The level bound of `Ladder::wf`, restated over a bare sequence.
pub open spec fn levels_ok_seq(s: Seq<PriceLevel>) -> bool {
    forall|i: int|
        0 <= i < s.len() ==> valid_price(#[trigger] s[i].price) && 0 < s[i].quantity <= VALUE_LIMIT
}

impl OrderBook {
    /// Volume-weighted average price to buy `target_qty` by walking the
    /// asks from the best up; `None` when the book cannot fill the target.
    pub fn vwap_ask(&self, target_qty: Quantity) -> (r: Option<Price>)
        requires
            self.wf(),
            0 < target_qty <= VALUE_LIMIT,
        ensures
            r == if fill_qty(self.asks.levels@, target_qty as int) == target_qty {
                Some(div_trunc(fill_value(self.asks.levels@, target_qty as int), target_qty as int)
                    as Price)
            } else {
                None::<Price>
            },
    {
        Self::vwap_walk(&self.asks, target_qty)
    }

    /// Volume-weighted average price to sell `target_qty` by walking the
    /// bids from the best down; `None` when the book cannot fill the target.
    pub fn vwap_bid(&self, target_qty: Quantity) -> (r: Option<Price>)
        requires
            self.wf(),
            0 < target_qty <= VALUE_LIMIT,
        ensures
            r == if fill_qty(self.bids.levels@, target_qty as int) == target_qty {
                Some(div_trunc(fill_value(self.bids.levels@, target_qty as int), target_qty as int)
                    as Price)
            } else {
                None::<Price>
            },
    {
        Self::vwap_walk(&self.bids, target_qty)
    }

    /// The walk shared by both sides.
    fn vwap_walk(side: &Ladder, target_qty: Quantity) -> (r: Option<Price>)
        requires
            side.wf(),
            0 < target_qty <= VALUE_LIMIT,
        ensures
            r == if fill_qty(side.levels@, target_qty as int) == target_qty {
                Some(div_trunc(fill_value(side.levels@, target_qty as int), target_qty as int)
                    as Price)
            } else {
                None::<Price>
            },
    {
        let ghost s = side.levels@;
        let n = side.levels.len();
        let mut remaining: i64 = target_qty;
        let mut value: i128 = 0;
        let mut i: usize = 0;
        proof {
            assert(s.skip(0) =~= s);
        }
        while i < n && remaining > 0
            invariant
                side.wf(),
                s == side.levels@,
                n == s.len(),
                i <= n,
                0 < target_qty <= VALUE_LIMIT,
                0 <= remaining <= target_qty,
                fill_value(s, target_qty as int) == value + fill_value(
                    s.skip(i as int),
                    remaining as int,
                ),
                fill_qty(s, target_qty as int) == (target_qty - remaining) + fill_qty(
                    s.skip(i as int),
                    remaining as int,
                ),
                0 <= value <= (target_qty - remaining) * VALUE_LIMIT,
            decreases n - i,
        {
            let lvl = side.levels[i];
            let f = min_i64(remaining, lvl.quantity);
            proof {
                assert(s.skip(i as int)[0] == s[i as int]);
                assert(s.skip(i as int).drop_first() =~= s.skip(i as int + 1));
                assert(levels_ok_seq(s.skip(i as int + 1))) by {
                    assert forall|k: int|
                        0 <= k < s.skip(i as int + 1).len() implies valid_price(
                        #[trigger] s.skip(i as int + 1)[k].price,
                    ) && 0 < s.skip(i as int + 1)[k].quantity <= VALUE_LIMIT by {
                        assert(s.skip(i as int + 1)[k] == s[k + i + 1]);
                    }
                }
                lemma_fill_bounds(s.skip(i as int + 1), remaining - f);
                assert(lvl.price * f <= f * VALUE_LIMIT && lvl.price * f >= 0)
                    by (nonlinear_arith)
                    requires
                        0 < lvl.price <= VALUE_LIMIT,
                        0 <= f,
                ;
                assert((target_qty - remaining) * VALUE_LIMIT + f * VALUE_LIMIT == (target_qty
                    - remaining + f) * VALUE_LIMIT) by (nonlinear_arith);
            }
            let dv = mul_wide(lvl.price, f);
            value = value + dv;
            remaining = remaining - f;
            i = i + 1;
        }
        proof {
            if remaining > 0 {
                assert(s.skip(i as int).len() == 0);
                assert(fill_qty(s.skip(i as int), remaining as int) == 0);
                assert(fill_value(s.skip(i as int), remaining as int) == 0);
            } else {
                assert(fill_qty(s.skip(i as int), 0) == 0);
                assert(fill_value(s.skip(i as int), 0) == 0);
            }
        }
        if remaining > 0 {
            None
        } else {
            proof {
                lemma_div_trunc_bound(value as int, target_qty as int, VALUE_LIMIT as int);
            }
            let q = div_wide(value, target_qty as i128);
            Some(q as i64)
        }
    }

    /// Book imbalance over the top `levels` levels, in fixed-point scale
    /// 10^8: `(bid volume - ask volume) / (bid volume + ask volume)`,
    /// between -1 and +1; zero on an empty window.
    pub fn imbalance(&self, levels: usize) -> (r: i64)
        requires
            self.wf(),
            levels <= 1_000_000_000,
        ensures
            r == {
                let bv = prefix_qty(self.bids.levels@, levels as int);
                let av = prefix_qty(self.asks.levels@, levels as int);
                if bv + av == 0 {
                    0int
                } else {
                    div_trunc((bv - av) * crate::PRECISION, bv + av)
                }
            },
    {
        let bv = Self::prefix_volume(&self.bids, levels);
        let av = Self::prefix_volume(&self.asks, levels);
        let total = bv + av;
        if total == 0 {
            return 0;
        }
        proof {
            assert((bv - av) * (crate::PRECISION as i128) == (bv as int - av as int)
                * crate::PRECISION) by (nonlinear_arith);
            lemma_div_trunc_bound(
                (bv as int - av as int) * crate::PRECISION,
                bv as int + av as int,
                crate::PRECISION as int,
            );
            assert(-(crate::PRECISION * (bv as int + av as int)) <= (bv as int - av as int)
                * crate::PRECISION <= crate::PRECISION * (bv as int + av as int))
                by (nonlinear_arith)
                requires
                    bv >= 0,
                    av >= 0,
                    bv + av > 0,
            ;
        }
        let num = (bv - av) * (crate::PRECISION as i128);
        let q = div_wide(num, total);
        q as i64
    }

    /// Volume resting in the first `levels` levels of one side.
    fn prefix_volume(side: &Ladder, levels: usize) -> (r: i128)
        requires
            side.wf(),
            levels <= 1_000_000_000,
        ensures
            r == prefix_qty(side.levels@, levels as int),
            0 <= r <= levels * VALUE_LIMIT,
    {
        let ghost s = side.levels@;
        let n = side.levels.len();
        let stop = if levels < n {
            levels
        } else {
            n
        };
        let mut acc: i128 = 0;
        let mut i: usize = 0;
        while i < stop
            invariant
                side.wf(),
                s == side.levels@,
                n == s.len(),
                stop <= n,
                stop <= levels,
                i <= stop,
                acc == prefix_qty(s, i as int),
                0 <= acc <= i * VALUE_LIMIT,
            decreases stop - i,
        {
            proof {
                assert(valid_price(s[i as int].price));
                assert(i as int * VALUE_LIMIT + VALUE_LIMIT == (i as int + 1) * VALUE_LIMIT)
                    by (nonlinear_arith);
            }
            acc = acc + (side.levels[i].quantity as i128);
            i = i + 1;
        }
        proof {
            lemma_prefix_flat(s, i as int, levels as int);
            assert(i as int * VALUE_LIMIT <= levels as int * VALUE_LIMIT) by (nonlinear_arith)
                requires
                    0 <= i as int <= levels as int,
                    VALUE_LIMIT > 0,
            ;
        }
        acc
    }
}

/// Past the end of the ladder, taking more levels adds nothing.
proof fn lemma_prefix_flat(s: Seq<PriceLevel>, i: int, n: int)
    requires
        0 <= i <= n,
        i >= s.len() || i == n,
    ensures
        prefix_qty(s, n) == prefix_qty(s, i),
    decreases n - i,
{
    if i < n {
        lemma_prefix_flat(s, i + 1, n);
    }
}

// ============================================================================
// Laws
// ============================================================================

/// A book is valid exactly when no resting bid sits at or above a resting
/// ask.
pub proof fn lemma_is_valid_iff_uncrossed(b: &OrderBook)
    requires
        b.wf(),
    ensures
        b.spec_is_valid() <==> b.uncrossed(),
{
    if b.spec_is_valid() {
        assert forall|pb: Price, pa: Price|
            (#[trigger] qty_at(b.bids.levels@, pb)) > 0 && (#[trigger] qty_at(b.asks.levels@, pa))
                > 0 implies pb < pa by {
            lemma_present_has_index(b.bids.levels@, pb);
            lemma_present_has_index(b.asks.levels@, pa);
            let i = choose|i: int| 0 <= i < b.bids.levels@.len() && (#[trigger] b.bids.levels@[i].price) == pb;
            let j = choose|j: int| 0 <= j < b.asks.levels@.len() && (#[trigger] b.asks.levels@[j].price) == pa;
            if i > 0 {
                assert(b.bids.levels@[0].price > b.bids.levels@[i].price);
            }
            if j > 0 {
                assert(b.asks.levels@[0].price < b.asks.levels@[j].price);
            }
        }
    }
    if b.uncrossed() {
        if b.bids.levels@.len() > 0 && b.asks.levels@.len() > 0 {
            lemma_ordered_distinct(b.bids.levels@, true);
            lemma_ordered_distinct(b.asks.levels@, false);
            lemma_sum_at_found(b.bids.levels@, 0, |l: PriceLevel| l.quantity as int);
            lemma_sum_at_found(b.asks.levels@, 0, |l: PriceLevel| l.quantity as int);
            assert(qty_at(b.bids.levels@, b.bids.levels@[0].price) > 0);
            assert(qty_at(b.asks.levels@, b.asks.levels@[0].price) > 0);
        }
    }
}

/// The L3 bookkeeping law: on a book whose L3 invariant holds — as it
/// does after any sequence of `add_order` and `remove_order` calls from
/// `new`, by their contracts — every bid level carries exactly the total
/// remaining quantity of the bids resting at its price and counts exactly
/// its active orders; likewise each ask level for the asks at its price.
pub proof fn lemma_levels_aggregate_orders(b: &OrderBook)
    requires
        b.wf(),
        b.l3_ok(),
    ensures
        forall|i: int|
            0 <= i < b.bids.levels@.len() ==> (#[trigger] b.bids.levels@[i]).quantity == orders_qty(
                b.orders@,
                Side::Buy,
                b.bids.levels@[i].price,
            ) && b.bids.levels@[i].order_count == orders_cnt(
                b.orders@,
                Side::Buy,
                b.bids.levels@[i].price,
            ),
        forall|i: int|
            0 <= i < b.asks.levels@.len() ==> (#[trigger] b.asks.levels@[i]).quantity == orders_qty(
                b.orders@,
                Side::Sell,
                b.asks.levels@[i].price,
            ) && b.asks.levels@[i].order_count == orders_cnt(
                b.orders@,
                Side::Sell,
                b.asks.levels@[i].price,
            ),
{
    lemma_ordered_distinct(b.bids.levels@, true);
    lemma_ordered_distinct(b.asks.levels@, false);
    assert forall|i: int|
        0 <= i < b.bids.levels@.len() implies (#[trigger] b.bids.levels@[i]).quantity == orders_qty(
        b.orders@,
        Side::Buy,
        b.bids.levels@[i].price,
    ) && b.bids.levels@[i].order_count == orders_cnt(
        b.orders@,
        Side::Buy,
        b.bids.levels@[i].price,
    ) by {
        lemma_sum_at_found(b.bids.levels@, i, |l: PriceLevel| l.quantity as int);
        lemma_sum_at_found(b.bids.levels@, i, |l: PriceLevel| l.order_count as int);
        assert(qty_at(b.bids.levels@, b.bids.levels@[i].price) == b.bids.levels@[i].quantity);
        assert(cnt_at(b.bids.levels@, b.bids.levels@[i].price) == b.bids.levels@[i].order_count);
    }
    assert forall|i: int|
        0 <= i < b.asks.levels@.len() implies (#[trigger] b.asks.levels@[i]).quantity == orders_qty(
        b.orders@,
        Side::Sell,
        b.asks.levels@[i].price,
    ) && b.asks.levels@[i].order_count == orders_cnt(
        b.orders@,
        Side::Sell,
        b.asks.levels@[i].price,
    ) by {
        lemma_sum_at_found(b.asks.levels@, i, |l: PriceLevel| l.quantity as int);
        lemma_sum_at_found(b.asks.levels@, i, |l: PriceLevel| l.order_count as int);
        assert(qty_at(b.asks.levels@, b.asks.levels@[i].price) == b.asks.levels@[i].quantity);
        assert(cnt_at(b.asks.levels@, b.asks.levels@[i].price) == b.asks.levels@[i].order_count);
    }
}

} // verus!
