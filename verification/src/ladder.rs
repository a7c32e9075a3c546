//! One side of an order book: price levels kept strictly sorted.
//!
//! The abstraction a ladder presents to its callers is the total function
//! `qty_at` (and its sibling `cnt_at`) from price to resting quantity:
//! a price that carries no level maps to zero. Every mutating operation
//! says pointwise what it does to that function.

use vstd::prelude::*;

use crate::types::{now_nanos, valid_price, Price, Quantity, Timestamp, VALUE_LIMIT};

verus! {

/// A price level in the order book.
#[derive(Debug, Clone, Copy)]
pub struct PriceLevel {
    pub price: Price,
    pub quantity: Quantity,
    pub order_count: u32,
    pub last_update: Timestamp,
}

impl PriceLevel {
    /// A level freshly seen with one resting order; stamped with the
    /// wall clock.
    pub fn new(price: Price, quantity: Quantity) -> (r: PriceLevel)
        ensures
            r.price == price,
            r.quantity == quantity,
            r.order_count == 1,
    {
        PriceLevel { price, quantity, order_count: 1, last_update: now_nanos() }
    }
}

// ============================================================================
// Spec: the price -> quantity abstraction
// ============================================================================

/// Sum of `f` over the levels that sit at price `p`.
pub open spec fn sum_at(s: Seq<PriceLevel>, p: Price, f: spec_fn(PriceLevel) -> int) -> int
    decreases s.len(),
{
    if s.len() == 0 {
        0
    } else {
        sum_at(s.drop_last(), p, f) + if s.last().price == p {
            f(s.last())
        } else {
            0
        }
    }
}

/// Resting quantity at price `p`; zero where no level sits.
pub open spec fn qty_at(s: Seq<PriceLevel>, p: Price) -> int {
    sum_at(s, p, |l: PriceLevel| l.quantity as int)
}

/// Resting order count at price `p`; zero where no level sits.
pub open spec fn cnt_at(s: Seq<PriceLevel>, p: Price) -> int {
    sum_at(s, p, |l: PriceLevel| l.order_count as int)
}

/// Strictly sorted by price: descending for bids, ascending for asks.
pub open spec fn ordered(s: Seq<PriceLevel>, desc: bool) -> bool {
    forall|i: int, j: int|
        0 <= i < j < s.len() ==> if desc {
            #[trigger] s[i].price > #[trigger] s[j].price
        } else {
            s[i].price < s[j].price
        }
}

/// Every level holds an admissible price and a positive bounded quantity.
pub open spec fn levels_ok(s: Seq<PriceLevel>) -> bool {
    forall|i: int|
        0 <= i < s.len() ==> valid_price(#[trigger] s[i].price) && 0 < s[i].quantity <= VALUE_LIMIT
}

/// `a` is closer to the top of the book than `b` on this side.
pub open spec fn better(a: Price, b: Price, desc: bool) -> bool {
    if desc {
        a > b
    } else {
        a < b
    }
}

// ============================================================================
// Lemmas about sum_at
// ============================================================================

/// Appending a level adds its contribution.
pub proof fn lemma_sum_at_push(s: Seq<PriceLevel>, l: PriceLevel, p: Price, f: spec_fn(PriceLevel) -> int)
    ensures
        sum_at(s.push(l), p, f) == sum_at(s, p, f) + if l.price == p {
            f(l)
        } else {
            0
        },
{
    assert(s.push(l).drop_last() =~= s);
}

/// Inserting a level anywhere adds its contribution.
pub proof fn lemma_sum_at_insert(
    s: Seq<PriceLevel>,
    i: int,
    l: PriceLevel,
    p: Price,
    f: spec_fn(PriceLevel) -> int,
)
    requires
        0 <= i <= s.len(),
    ensures
        sum_at(s.insert(i, l), p, f) == sum_at(s, p, f) + if l.price == p {
            f(l)
        } else {
            0
        },
    decreases s.len(),
{
    if i == s.len() {
        assert(s.insert(i, l) =~= s.push(l));
        lemma_sum_at_push(s, l, p, f);
    } else {
        assert(s.insert(i, l).drop_last() =~= s.drop_last().insert(i, l));
        assert(s.insert(i, l).last() == s.last());
        lemma_sum_at_insert(s.drop_last(), i, l, p, f);
    }
}

/// Removing a level subtracts its contribution.
pub proof fn lemma_sum_at_remove(s: Seq<PriceLevel>, i: int, p: Price, f: spec_fn(PriceLevel) -> int)
    requires
        0 <= i < s.len(),
    ensures
        sum_at(s.remove(i), p, f) == sum_at(s, p, f) - if s[i].price == p {
            f(s[i])
        } else {
            0
        },
    decreases s.len(),
{
    if i == s.len() - 1 {
        assert(s.remove(i) =~= s.drop_last());
    } else {
        assert(s.remove(i).drop_last() =~= s.drop_last().remove(i));
        assert(s.remove(i).last() == s.last());
        lemma_sum_at_remove(s.drop_last(), i, p, f);
    }
}

/// Replacing a level swaps its contribution.
pub proof fn lemma_sum_at_update(
    s: Seq<PriceLevel>,
    i: int,
    l: PriceLevel,
    p: Price,
    f: spec_fn(PriceLevel) -> int,
)
    requires
        0 <= i < s.len(),
    ensures
        sum_at(s.update(i, l), p, f) == sum_at(s, p, f) - (if s[i].price == p {
            f(s[i])
        } else {
            0
        }) + (if l.price == p {
            f(l)
        } else {
            0
        }),
    decreases s.len(),
{
    if i == s.len() - 1 {
        assert(s.update(i, l).drop_last() =~= s.drop_last());
        assert(s.update(i, l).last() == l);
    } else {
        assert(s.update(i, l).drop_last() =~= s.drop_last().update(i, l));
        assert(s.update(i, l).last() == s.last());
        lemma_sum_at_update(s.drop_last(), i, l, p, f);
    }
}

/// A price at which no level sits contributes nothing.
pub proof fn lemma_sum_at_absent(s: Seq<PriceLevel>, p: Price, f: spec_fn(PriceLevel) -> int)
    requires
        forall|i: int| 0 <= i < s.len() ==> (#[trigger] s[i].price) != p,
    ensures
        sum_at(s, p, f) == 0,
    decreases s.len(),
{
    if s.len() > 0 {
        lemma_sum_at_absent(s.drop_last(), p, f);
    }
}

/// With pairwise distinct prices, the sum at a present price is exactly
/// that level's contribution.
pub proof fn lemma_sum_at_found(s: Seq<PriceLevel>, i: int, f: spec_fn(PriceLevel) -> int)
    requires
        0 <= i < s.len(),
        forall|j: int, k: int|
            0 <= j < k < s.len() ==> (#[trigger] s[j].price) != (#[trigger] s[k].price),
    ensures
        sum_at(s, s[i].price, f) == f(s[i]),
    decreases s.len(),
{
    if i == s.len() - 1 {
        assert(forall|j: int|
            0 <= j < s.drop_last().len() ==> (#[trigger] s.drop_last()[j].price) != s[i].price);
        lemma_sum_at_absent(s.drop_last(), s[i].price, f);
    } else {
        lemma_sum_at_found(s.drop_last(), i, f);
        assert(s.last().price != s[i].price);
    }
}

/// A price with resting quantity has a level.
pub proof fn lemma_present_has_index(s: Seq<PriceLevel>, p: Price)
    requires
        qty_at(s, p) != 0,
    ensures
        exists|i: int| 0 <= i < s.len() && (#[trigger] s[i].price) == p,
    decreases s.len(),
{
    if s.len() > 0 {
        if s.last().price == p {
            assert(s[s.len() - 1].price == p);
        } else {
            lemma_present_has_index(s.drop_last(), p);
            let i = choose|i: int|
                0 <= i < s.drop_last().len() && (#[trigger] s.drop_last()[i].price) == p;
            assert(s[i].price == p);
        }
    }
}

/// A strictly sorted ladder has pairwise distinct prices.
pub proof fn lemma_ordered_distinct(s: Seq<PriceLevel>, desc: bool)
    requires
        ordered(s, desc),
    ensures
        forall|j: int, k: int|
            0 <= j < k < s.len() ==> (#[trigger] s[j].price) != (#[trigger] s[k].price),
{
}

// ============================================================================
// The ladder itself
// ============================================================================

/// One side of a book: levels strictly sorted, best first (descending
/// prices when `desc`, for bids; ascending otherwise, for asks).
pub struct Ladder {
    pub levels: Vec<PriceLevel>,
    pub desc: bool,
}

impl Ladder {
    /// Sorted with the best level first, every level admissible.
    pub open spec fn wf(&self) -> bool {
        ordered(self.levels@, self.desc) && levels_ok(self.levels@)
    }

    /// An empty side.
    pub fn new(desc: bool) -> (r: Ladder)
        ensures
            r.wf(),
            r.desc == desc,
            r.levels@ == Seq::<PriceLevel>::empty(),
    {
        Ladder { levels: Vec::new(), desc }
    }

    /// Number of levels.
    pub fn len(&self) -> (r: usize)
        ensures
            r == self.levels@.len(),
    {
        self.levels.len()
    }

    /// Drop every level.
    pub fn clear(&mut self)
        ensures
            final(self).wf(),
            final(self).desc == old(self).desc,
            final(self).levels@ == Seq::<PriceLevel>::empty(),
    {
        self.levels.clear();
    }

    /// Index of the first level at or past `price`: every earlier level is
    /// strictly better, and the level there (if any) is not better.
    fn find_pos(&self, price: Price) -> (i: usize)
        requires
            self.wf(),
        ensures
            i <= self.levels@.len(),
            forall|j: int| 0 <= j < i ==> better(#[trigger] self.levels@[j].price, price, self.desc),
            i < self.levels@.len() ==> !better(self.levels@[i as int].price, price, self.desc),
    {
        let n = self.levels.len();
        let mut i: usize = 0;
        while i < n
            invariant
                n == self.levels@.len(),
                i <= n,
                self.wf(),
                forall|j: int| 0 <= j < i ==> better(#[trigger] self.levels@[j].price, price, self.desc),
            decreases n - i,
        {
            let lp = self.levels[i].price;
            let go_on = if self.desc {
                lp > price
            } else {
                lp < price
            };
            if !go_on {
                return i;
            }
            i = i + 1;
        }
        i
    }

    /// No level sits at a price that every level differs from.
    proof fn lemma_absent_at(s: Seq<PriceLevel>, p: Price)
        requires
            forall|j: int| 0 <= j < s.len() ==> (#[trigger] s[j].price) != p,
        ensures
            qty_at(s, p) == 0,
            cnt_at(s, p) == 0,
    {
        lemma_sum_at_absent(s, p, |l: PriceLevel| l.quantity as int);
        lemma_sum_at_absent(s, p, |l: PriceLevel| l.order_count as int);
    }

    /// After `find_pos`, a mismatch at the found index means the price is
    /// absent from the whole ladder.
    proof fn lemma_not_found(s: Seq<PriceLevel>, desc: bool, p: Price, i: int)
        requires
            ordered(s, desc),
            0 <= i <= s.len(),
            forall|j: int| 0 <= j < i ==> better(#[trigger] s[j].price, p, desc),
            i < s.len() ==> !better(s[i].price, p, desc) && s[i].price != p,
        ensures
            forall|j: int| 0 <= j < s.len() ==> (#[trigger] s[j].price) != p,
            qty_at(s, p) == 0,
            cnt_at(s, p) == 0,
    {
        assert forall|j: int| 0 <= j < s.len() implies (#[trigger] s[j].price) != p by {
            if j < i {
            } else if j == i {
            } else {
                assert(better(s[i].price, s[j].price, desc));
            }
        }
        Self::lemma_absent_at(s, p);
    }

    /// Set the level at `price` to `qty` resting in `count` orders
    /// (removing it when `qty` is zero), leaving every other price alone.
    pub fn set_level(&mut self, price: Price, qty: Quantity, count: u32, ts: Timestamp)
        requires
            old(self).wf(),
            valid_price(price),
            0 <= qty <= VALUE_LIMIT,
        ensures
            final(self).wf(),
            final(self).desc == old(self).desc,
            forall|p: Price| #[trigger] qty_at(final(self).levels@, p) == if p == price {
                qty as int
            } else {
                qty_at(old(self).levels@, p)
            },
            forall|p: Price| #[trigger] cnt_at(final(self).levels@, p) == if p == price {
                if qty == 0 {
                    0
                } else {
                    count as int
                }
            } else {
                cnt_at(old(self).levels@, p)
            },
            qty != 0 ==> final(self).levels@.contains(
                PriceLevel { price, quantity: qty, order_count: count, last_update: ts },
            ),
    {
        let ghost s0 = self.levels@;
        let i = self.find_pos(price);
        let n = self.levels.len();
        proof {
            lemma_ordered_distinct(s0, self.desc);
        }
        if i < n && self.levels[i].price == price {
            if qty == 0 {
                self.levels.remove(i);
                proof {
                    Self::lemma_removed_at(s0, self.desc, i as int);
                }
            } else {
                let lvl = PriceLevel { price, quantity: qty, order_count: count, last_update: ts };
                self.levels[i] = lvl;
                proof {
                    Self::lemma_replaced_at(s0, self.desc, i as int, lvl);
                    assert(self.levels@[i as int] == lvl);
                    assert(self.levels@.contains(lvl));
                }
            }
        } else {
            proof {
                Self::lemma_not_found(s0, self.desc, price, i as int);
            }
            if qty != 0 {
                let lvl = PriceLevel { price, quantity: qty, order_count: count, last_update: ts };
                self.levels.insert(i, lvl);
                proof {
                    Self::lemma_inserted_at(s0, self.desc, i as int, lvl);
                    assert(self.levels@[i as int] == lvl);
                    assert(self.levels@.contains(lvl));
                }
            }
        }
    }

    /// Removing the level at index `i` clears its price and keeps the rest.
    proof fn lemma_removed_at(s: Seq<PriceLevel>, desc: bool, i: int)
        requires
            ordered(s, desc),
            levels_ok(s),
            0 <= i < s.len(),
        ensures
            ordered(s.remove(i), desc),
            levels_ok(s.remove(i)),
            forall|p: Price| #[trigger] qty_at(s.remove(i), p) == if p == s[i].price {
                0
            } else {
                qty_at(s, p)
            },
            forall|p: Price| #[trigger] cnt_at(s.remove(i), p) == if p == s[i].price {
                0
            } else {
                cnt_at(s, p)
            },
    {
        s.remove_ensures(i);
        lemma_ordered_distinct(s, desc);
        assert forall|p: Price| #[trigger] qty_at(s.remove(i), p) == if p == s[i].price {
            0
        } else {
            qty_at(s, p)
        } by {
            lemma_sum_at_remove(s, i, p, |l: PriceLevel| l.quantity as int);
            if p == s[i].price {
                lemma_sum_at_found(s, i, |l: PriceLevel| l.quantity as int);
            }
        }
        assert forall|p: Price| #[trigger] cnt_at(s.remove(i), p) == if p == s[i].price {
            0
        } else {
            cnt_at(s, p)
        } by {
            lemma_sum_at_remove(s, i, p, |l: PriceLevel| l.order_count as int);
            if p == s[i].price {
                lemma_sum_at_found(s, i, |l: PriceLevel| l.order_count as int);
            }
        }
    }

    /// Replacing the level at index `i` by one at the same price rewrites
    /// that price and keeps the rest.
    proof fn lemma_replaced_at(s: Seq<PriceLevel>, desc: bool, i: int, lvl: PriceLevel)
        requires
            ordered(s, desc),
            levels_ok(s),
            0 <= i < s.len(),
            lvl.price == s[i].price,
            valid_price(lvl.price),
            0 < lvl.quantity <= VALUE_LIMIT,
        ensures
            ordered(s.update(i, lvl), desc),
            levels_ok(s.update(i, lvl)),
            forall|p: Price| #[trigger] qty_at(s.update(i, lvl), p) == if p == lvl.price {
                lvl.quantity as int
            } else {
                qty_at(s, p)
            },
            forall|p: Price| #[trigger] cnt_at(s.update(i, lvl), p) == if p == lvl.price {
                lvl.order_count as int
            } else {
                cnt_at(s, p)
            },
    {
        lemma_ordered_distinct(s, desc);
        assert forall|p: Price| #[trigger] qty_at(s.update(i, lvl), p) == if p == lvl.price {
            lvl.quantity as int
        } else {
            qty_at(s, p)
        } by {
            lemma_sum_at_update(s, i, lvl, p, |l: PriceLevel| l.quantity as int);
            if p == lvl.price {
                lemma_sum_at_found(s, i, |l: PriceLevel| l.quantity as int);
            }
        }
        assert forall|p: Price| #[trigger] cnt_at(s.update(i, lvl), p) == if p == lvl.price {
            lvl.order_count as int
        } else {
            cnt_at(s, p)
        } by {
            lemma_sum_at_update(s, i, lvl, p, |l: PriceLevel| l.order_count as int);
            if p == lvl.price {
                lemma_sum_at_found(s, i, |l: PriceLevel| l.order_count as int);
            }
        }
    }

    /// Inserting a level at the position `find_pos` chose keeps the ladder
    /// sorted, writes its price, and keeps the rest.
    proof fn lemma_inserted_at(s: Seq<PriceLevel>, desc: bool, i: int, lvl: PriceLevel)
        requires
            ordered(s, desc),
            levels_ok(s),
            0 <= i <= s.len(),
            forall|j: int| 0 <= j < i ==> better(#[trigger] s[j].price, lvl.price, desc),
            forall|j: int| i <= j < s.len() ==> better(lvl.price, #[trigger] s[j].price, desc),
            valid_price(lvl.price),
            0 < lvl.quantity <= VALUE_LIMIT,
        ensures
            ordered(s.insert(i, lvl), desc),
            levels_ok(s.insert(i, lvl)),
            forall|p: Price| #[trigger] qty_at(s.insert(i, lvl), p) == if p == lvl.price {
                qty_at(s, p) + lvl.quantity
            } else {
                qty_at(s, p)
            },
            forall|p: Price| #[trigger] cnt_at(s.insert(i, lvl), p) == if p == lvl.price {
                cnt_at(s, p) + lvl.order_count
            } else {
                cnt_at(s, p)
            },
    {
        s.insert_ensures(i, lvl);
        let t = s.insert(i, lvl);
        assert forall|a: int, b: int| 0 <= a < b < t.len() implies if desc {
            t[a].price > t[b].price
        } else {
            t[a].price < t[b].price
        } by {
            if a < i && b < i {
            } else if a < i && b == i {
            } else if a < i && b > i {
                assert(t[b] == s[b - 1]);
            } else if a == i {
                assert(t[b] == s[b - 1]);
            } else {
                assert(t[a] == s[a - 1]);
                assert(t[b] == s[b - 1]);
            }
        }
        assert(levels_ok(t)) by {
            assert forall|k: int|
                0 <= k < t.len() implies valid_price(#[trigger] t[k].price) && 0 < t[k].quantity
                <= VALUE_LIMIT by {
                if k < i {
                } else if k == i {
                } else {
                    assert(t[k] == s[k - 1]);
                }
            }
        }
        assert forall|p: Price| #[trigger] qty_at(t, p) == if p == lvl.price {
            qty_at(s, p) + lvl.quantity
        } else {
            qty_at(s, p)
        } by {
            lemma_sum_at_insert(s, i, lvl, p, |l: PriceLevel| l.quantity as int);
        }
        assert forall|p: Price| #[trigger] cnt_at(t, p) == if p == lvl.price {
            cnt_at(s, p) + lvl.order_count
        } else {
            cnt_at(s, p)
        } by {
            lemma_sum_at_insert(s, i, lvl, p, |l: PriceLevel| l.order_count as int);
        }
    }

    /// Fold one more resting order of size `dq` into the level at `price`,
    /// creating the level when it is absent.
    pub fn add_to_level(&mut self, price: Price, dq: Quantity, ts: Timestamp)
        requires
            old(self).wf(),
            valid_price(price),
            0 < dq <= VALUE_LIMIT,
            qty_at(old(self).levels@, price) + dq <= VALUE_LIMIT,
            cnt_at(old(self).levels@, price) < u32::MAX,
        ensures
            final(self).wf(),
            final(self).desc == old(self).desc,
            forall|p: Price| #[trigger] qty_at(final(self).levels@, p) == if p == price {
                qty_at(old(self).levels@, p) + dq
            } else {
                qty_at(old(self).levels@, p)
            },
            forall|p: Price| #[trigger] cnt_at(final(self).levels@, p) == if p == price {
                cnt_at(old(self).levels@, p) + 1
            } else {
                cnt_at(old(self).levels@, p)
            },
    {
        let ghost s0 = self.levels@;
        let i = self.find_pos(price);
        let n = self.levels.len();
        proof {
            lemma_ordered_distinct(s0, self.desc);
        }
        if i < n && self.levels[i].price == price {
            proof {
                lemma_sum_at_found(s0, i as int, |l: PriceLevel| l.quantity as int);
                lemma_sum_at_found(s0, i as int, |l: PriceLevel| l.order_count as int);
            }
            let cur = self.levels[i];
            let lvl = PriceLevel {
                price,
                quantity: cur.quantity + dq,
                order_count: cur.order_count + 1,
                last_update: ts,
            };
            self.levels[i] = lvl;
            proof {
                Self::lemma_replaced_at(s0, self.desc, i as int, lvl);
            }
        } else {
            proof {
                Self::lemma_not_found(s0, self.desc, price, i as int);
            }
            let lvl = PriceLevel { price, quantity: dq, order_count: 1, last_update: ts };
            self.levels.insert(i, lvl);
            proof {
                Self::lemma_inserted_at(s0, self.desc, i as int, lvl);
            }
        }
    }

    /// Take one resting order of size `dq` out of the level at `price`;
    /// the level disappears when its quantity or its order count runs out.
    pub fn remove_from_level(&mut self, price: Price, dq: Quantity)
        requires
            old(self).wf(),
            0 <= dq <= VALUE_LIMIT,
        ensures
            final(self).wf(),
            final(self).desc == old(self).desc,
            forall|p: Price| #[trigger] qty_at(final(self).levels@, p) == {
                let q0 = qty_at(old(self).levels@, p);
                if p != price || q0 == 0 {
                    q0
                } else if q0 - dq <= 0 || cnt_at(old(self).levels@, p) <= 1 {
                    0
                } else {
                    q0 - dq
                }
            },
            forall|p: Price| #[trigger] cnt_at(final(self).levels@, p) == {
                let q0 = qty_at(old(self).levels@, p);
                let c0 = cnt_at(old(self).levels@, p);
                if p != price || q0 == 0 {
                    c0
                } else if q0 - dq <= 0 || c0 <= 1 {
                    0
                } else {
                    c0 - 1
                }
            },
    {
        let ghost s0 = self.levels@;
        let i = self.find_pos(price);
        let n = self.levels.len();
        proof {
            lemma_ordered_distinct(s0, self.desc);
        }
        if i < n && self.levels[i].price == price {
            proof {
                lemma_sum_at_found(s0, i as int, |l: PriceLevel| l.quantity as int);
                lemma_sum_at_found(s0, i as int, |l: PriceLevel| l.order_count as int);
            }
            let cur = self.levels[i];
            let new_q = cur.quantity - dq;
            if new_q <= 0 || cur.order_count <= 1 {
                self.levels.remove(i);
                proof {
                    Self::lemma_removed_at(s0, self.desc, i as int);
                }
            } else {
                let lvl = PriceLevel {
                    price,
                    quantity: new_q,
                    order_count: cur.order_count - 1,
                    last_update: cur.last_update,
                };
                self.levels[i] = lvl;
                proof {
                    Self::lemma_replaced_at(s0, self.desc, i as int, lvl);
                }
            }
        } else {
            proof {
                Self::lemma_not_found(s0, self.desc, price, i as int);
            }
        }
    }

    /// The best level: the first one, which carries exactly the resting
    /// quantity of its price, with nothing resting at any better price.
    pub fn best(&self) -> (r: Option<PriceLevel>)
        requires
            self.wf(),
        ensures
            (r is None) <==> self.levels@.len() == 0,
            r is Some ==> {
                let l = r->Some_0;
                &&& l == self.levels@[0]
                &&& qty_at(self.levels@, l.price) == l.quantity
                &&& cnt_at(self.levels@, l.price) == l.order_count
                &&& valid_price(l.price)
                &&& 0 < l.quantity <= VALUE_LIMIT
                &&& forall|p: Price| better(p, l.price, self.desc) ==> qty_at(self.levels@, p) == 0
            },
    {
        if self.levels.len() == 0 {
            None
        } else {
            let l = self.levels[0];
            proof {
                lemma_ordered_distinct(self.levels@, self.desc);
                lemma_sum_at_found(self.levels@, 0, |x: PriceLevel| x.quantity as int);
                lemma_sum_at_found(self.levels@, 0, |x: PriceLevel| x.order_count as int);
                assert forall|p: Price|
                    better(p, l.price, self.desc) implies qty_at(self.levels@, p) == 0 by {
                    assert forall|j: int|
                        0 <= j < self.levels@.len() implies (#[trigger] self.levels@[j].price)
                        != p by {
                        if j > 0 {
                            assert(better(self.levels@[0].price, self.levels@[j].price, self.desc));
                        }
                    }
                    Self::lemma_absent_at(self.levels@, p);
                }
            }
            Some(l)
        }
    }

    /// The level `d` places down from the top, if the ladder is that deep.
    pub fn level_at_depth(&self, d: usize) -> (r: Option<PriceLevel>)
        ensures
            r == if d < self.levels@.len() {
                Some(self.levels@[d as int])
            } else {
                None::<PriceLevel>
            },
    {
        if d < self.levels.len() {
            Some(self.levels[d])
        } else {
            None
        }
    }
}

} // verus!
