//! Cross-venue market making: one fair value from the NBBO, venue-local
//! inventory skew, and an immediate hedge for each fill.

use vstd::prelude::*;

use crate::consolidated::{ConsolidatedBook, NBBO};
use crate::fixed::{clamp_spec, div_trunc, div_wide, lemma_div_trunc_bound, mul_wide, wrap_inc};
use crate::strategy::{spec_wrap64, MAX_BPS};
use crate::types::{
    now_nanos, ExchangeId, Order, OrderStatus, OrderType, Price, Quantity, Side, TimeInForce,
    VALUE_LIMIT,
};

verus! {

/// Half of one, at scale 10^8: the fixed skew strength of the cross-venue
/// maker.
pub const HALF_RATIO: i64 = 50_000_000;

/// Divisor folding the two 10^8 scales and the basis-point denominator of
/// a skew product into one division.
pub const CROSS_SKEW_DIV: i128 = 100_000_000_000_000_000_000;

/// Signed position held at each venue, with the net across venues.
pub struct CrossExchangePosition {
    pub entries: Vec<(ExchangeId, Quantity)>,
    pub net_position: Quantity,
}

/// Sum of the per-venue positions.
pub open spec fn pos_sum(s: Seq<(ExchangeId, Quantity)>) -> int
    decreases s.len(),
{
    if s.len() == 0 {
        0
    } else {
        pos_sum(s.drop_last()) + s.last().1
    }
}

/// The position recorded for one venue; zero when none is.
pub open spec fn pos_of(s: Seq<(ExchangeId, Quantity)>, e: ExchangeId) -> int
    decreases s.len(),
{
    if s.len() == 0 {
        0
    } else if s.last().0 == e {
        s.last().1 as int
    } else {
        pos_of(s.drop_last(), e)
    }
}

impl CrossExchangePosition {
    /// One entry per venue, each inside the position band.
    pub open spec fn wf(&self) -> bool {
        &&& forall|i: int, j: int|
            0 <= i < j < self.entries@.len() ==> (#[trigger] self.entries@[i].0) != (
            #[trigger] self.entries@[j].0)
        &&& forall|i: int|
            0 <= i < self.entries@.len() ==> -VALUE_LIMIT <= (#[trigger] self.entries@[i]).1
                <= VALUE_LIMIT
    }

    /// Flat everywhere.
    pub fn new() -> (r: CrossExchangePosition)
        ensures
            r.wf(),
            r.entries@.len() == 0,
            r.net_position == 0,
    {
        CrossExchangePosition { entries: Vec::new(), net_position: 0 }
    }

    /// Record the position now held at one venue and refresh the net,
    /// saturating the net at the 64-bit bounds.
    pub fn update(&mut self, exchange: ExchangeId, qty: Quantity)
        requires
            old(self).wf(),
            -VALUE_LIMIT <= qty <= VALUE_LIMIT,
        ensures
            final(self).wf(),
            pos_of(final(self).entries@, exchange) == qty,
            forall|e: ExchangeId|
                e != exchange ==> #[trigger] pos_of(final(self).entries@, e) == pos_of(
                    old(self).entries@,
                    e,
                ),
            final(self).net_position == clamp_spec(
                pos_sum(final(self).entries@),
                i64::MIN as int,
                i64::MAX as int,
            ),
            (exists|j: int|
                0 <= j < old(self).entries@.len() && (#[trigger] old(self).entries@[j].0)
                    == exchange) ==> final(self).entries@.len() == old(self).entries@.len(),
            (forall|j: int|
                0 <= j < old(self).entries@.len() ==> (#[trigger] old(self).entries@[j].0)
                    != exchange) ==> final(self).entries@.len() == old(self).entries@.len() + 1,
    {
        let n = self.entries.len();
        let mut i: usize = 0;
        while i < n && !crate::consolidated::exchange_eq(self.entries[i].0, exchange)
            invariant
                n == self.entries@.len(),
                i <= n,
                forall|j: int| 0 <= j < i ==> (#[trigger] self.entries@[j].0) != exchange,
                self == old(self),
            decreases n - i,
        {
            i = i + 1;
        }
        let ghost s0 = self.entries@;
        if i < n {
            self.entries[i] = (exchange, qty);
            proof {
                lemma_pos_of_update(s0, i as int, exchange, qty);
                assert forall|a: int, b: int|
                    0 <= a < b < self.entries@.len() implies (#[trigger] self.entries@[a].0) != (
                #[trigger] self.entries@[b].0) by {
                    assert(s0[a].0 != s0[b].0);
                    if a != i as int {
                        assert(self.entries@[a] == s0[a]);
                    }
                    if b != i as int {
                        assert(self.entries@[b] == s0[b]);
                    }
                }
            }
        } else {
            self.entries.push((exchange, qty));
            proof {
                lemma_pos_of_push(s0, exchange, qty);
                assert forall|a: int, b: int|
                    0 <= a < b < self.entries@.len() implies (#[trigger] self.entries@[a].0) != (
                #[trigger] self.entries@[b].0) by {
                    if b < self.entries@.len() - 1 {
                        assert(s0[a].0 != s0[b].0);
                    } else {
                        assert(self.entries@[a] == s0[a]);
                    }
                }
            }
        }
        self.net_position = self.recompute_net();
    }

    /// Sum every venue's position, saturating at the 64-bit bounds.
    fn recompute_net(&self) -> (r: Quantity)
        requires
            forall|i: int|
                0 <= i < self.entries@.len() ==> -VALUE_LIMIT <= (#[trigger] self.entries@[i]).1
                    <= VALUE_LIMIT,
        ensures
            r == clamp_spec(pos_sum(self.entries@), i64::MIN as int, i64::MAX as int),
    {
        let n = self.entries.len();
        let mut acc: i128 = 0;
        let mut i: usize = 0;
        while i < n
            invariant
                n == self.entries@.len(),
                i <= n,
                forall|k: int|
                    0 <= k < n ==> -VALUE_LIMIT <= (#[trigger] self.entries@[k]).1 <= VALUE_LIMIT,
                acc == pos_sum(self.entries@.take(i as int)),
                -(i as int) * VALUE_LIMIT <= acc <= (i as int) * VALUE_LIMIT,
            decreases n - i,
        {
            proof {
                assert(self.entries@.take(i as int + 1).drop_last() =~= self.entries@.take(i as int));
                assert(self.entries@.take(i as int + 1).last() == self.entries@[i as int]);
                assert((i as int) * VALUE_LIMIT + VALUE_LIMIT == (i as int + 1) * VALUE_LIMIT)
                    by (nonlinear_arith);
            }
            acc = acc + (self.entries[i].1 as i128);
            i = i + 1;
        }
        proof {
            assert(self.entries@.take(n as int) =~= self.entries@);
        }
        crate::fixed::sat_i64(acc)
    }

    /// The position held at one venue; zero when none is recorded.
    pub fn get(&self, exchange: ExchangeId) -> (r: Quantity)
        requires
            self.wf(),
        ensures
            r == pos_of(self.entries@, exchange),
            -VALUE_LIMIT <= r <= VALUE_LIMIT,
    {
        let n = self.entries.len();
        let mut i: usize = 0;
        while i < n && !crate::consolidated::exchange_eq(self.entries[i].0, exchange)
            invariant
                n == self.entries@.len(),
                i <= n,
                self.wf(),
                forall|j: int| 0 <= j < i ==> (#[trigger] self.entries@[j].0) != exchange,
            decreases n - i,
        {
            i = i + 1;
        }
        if i < n {
            proof {
                lemma_pos_of_found(self.entries@, i as int, exchange);
            }
            self.entries[i].1
        } else {
            proof {
                lemma_pos_of_absent(self.entries@, exchange);
            }
            0
        }
    }
}

/// Replacing a venue's entry rewrites its lookup and keeps the rest.
proof fn lemma_pos_of_update(s: Seq<(ExchangeId, Quantity)>, i: int, e: ExchangeId, q: Quantity)
    requires
        0 <= i < s.len(),
        s[i].0 == e,
        forall|a: int, b: int| 0 <= a < b < s.len() ==> (#[trigger] s[a].0) != (#[trigger] s[b].0),
    ensures
        pos_of(s.update(i, (e, q)), e) == q,
        forall|x: ExchangeId| x != e ==> #[trigger] pos_of(s.update(i, (e, q)), x) == pos_of(s, x),
    decreases s.len(),
{
    let t = s.update(i, (e, q));
    if i == s.len() - 1 {
        assert(t.drop_last() =~= s.drop_last());
        assert(t.last() == (e, q));
        assert forall|x: ExchangeId| x != e implies #[trigger] pos_of(t, x) == pos_of(s, x) by {
            assert(pos_of(t, x) == pos_of(t.drop_last(), x));
            assert(pos_of(s, x) == if s.last().0 == x {
                s.last().1 as int
            } else {
                pos_of(s.drop_last(), x)
            });
        }
    } else {
        assert(t.drop_last() =~= s.drop_last().update(i, (e, q)));
        assert(t.last() == s.last());
        assert forall|a: int, b: int|
            0 <= a < b < s.drop_last().len() implies (#[trigger] s.drop_last()[a].0) != (
        #[trigger] s.drop_last()[b].0) by {
            assert(s[a].0 != s[b].0);
        }
        assert(s.drop_last()[i] == s[i]);
        lemma_pos_of_update(s.drop_last(), i, e, q);
        assert(s[i].0 != s[s.len() - 1].0);
        assert(s.last().0 != e);
        assert forall|x: ExchangeId| x != e implies #[trigger] pos_of(t, x) == pos_of(s, x) by {
            if s.last().0 == x {
                assert(pos_of(t, x) == s.last().1 as int);
                assert(pos_of(s, x) == s.last().1 as int);
            } else {
                assert(pos_of(t, x) == pos_of(t.drop_last(), x));
                assert(pos_of(s, x) == pos_of(s.drop_last(), x));
            }
        }
    }
}

/// Appending a venue's first entry sets its lookup and keeps the rest.
proof fn lemma_pos_of_push(s: Seq<(ExchangeId, Quantity)>, e: ExchangeId, q: Quantity)
    ensures
        pos_of(s.push((e, q)), e) == q,
        forall|x: ExchangeId| x != e ==> #[trigger] pos_of(s.push((e, q)), x) == pos_of(s, x),
{
    assert(s.push((e, q)).drop_last() =~= s);
}

/// A venue found at index `i` has that entry's position.
proof fn lemma_pos_of_found(s: Seq<(ExchangeId, Quantity)>, i: int, e: ExchangeId)
    requires
        0 <= i < s.len(),
        s[i].0 == e,
        forall|a: int, b: int| 0 <= a < b < s.len() ==> (#[trigger] s[a].0) != (#[trigger] s[b].0),
    ensures
        pos_of(s, e) == s[i].1,
    decreases s.len(),
{
    if i == s.len() - 1 {
    } else {
        assert(s.last().0 != e);
        lemma_pos_of_found(s.drop_last(), i, e);
    }
}

/// A venue with no entry has position zero.
proof fn lemma_pos_of_absent(s: Seq<(ExchangeId, Quantity)>, e: ExchangeId)
    requires
        forall|j: int| 0 <= j < s.len() ==> (#[trigger] s[j].0) != e,
    ensures
        pos_of(s, e) == 0,
    decreases s.len(),
{
    if s.len() > 0 {
        lemma_pos_of_absent(s.drop_last(), e);
    }
}

// ============================================================================
// Parameters and quotes
// ============================================================================

/// One quote per venue: `(venue, bid, ask, bid size, ask size)`.
#[derive(Debug, Clone)]
pub struct MultiExchangeQuotes {
    pub quotes: Vec<(ExchangeId, Price, Price, Quantity, Quantity)>,
    pub should_quote: bool,
}

/// Cross-venue maker parameters; basis points at fixed-point scale 10^8.
#[derive(Debug, Clone)]
pub struct CrossExchangeMMParams {
    pub target_spread_bps: i64,
    pub max_position_per_exchange: Quantity,
    pub max_total_position: Quantity,
    pub default_order_size: Quantity,
    pub hedge_immediately: bool,
    pub quote_exchanges: Vec<ExchangeId>,
    pub hedge_exchanges: Vec<ExchangeId>,
}

impl CrossExchangeMMParams {
    /// Bounds under which the quoting arithmetic is exact.
    pub open spec fn wf(&self) -> bool {
        &&& 0 <= self.target_spread_bps <= MAX_BPS
        &&& 0 <= self.max_position_per_exchange <= VALUE_LIMIT
        &&& 0 <= self.max_total_position <= VALUE_LIMIT
        &&& 0 <= self.default_order_size <= VALUE_LIMIT
    }
}

impl Default for CrossExchangeMMParams {
    /// Fifteen basis points across the two major venues, hedged at once.
    fn default() -> (r: CrossExchangeMMParams)
        ensures
            r.wf(),
            r.target_spread_bps == 1_500_000_000,
            r.max_position_per_exchange == 10_000_000,
            r.max_total_position == 20_000_000,
            r.default_order_size == 100_000,
            r.hedge_immediately,
            r.quote_exchanges@ == seq![ExchangeId::Binance, ExchangeId::Bybit],
            r.hedge_exchanges@ == seq![ExchangeId::Binance, ExchangeId::Bybit],
    {
        let mut quote_exchanges: Vec<ExchangeId> = Vec::new();
        quote_exchanges.push(ExchangeId::Binance);
        quote_exchanges.push(ExchangeId::Bybit);
        let mut hedge_exchanges: Vec<ExchangeId> = Vec::new();
        hedge_exchanges.push(ExchangeId::Binance);
        hedge_exchanges.push(ExchangeId::Bybit);
        proof {
            assert(quote_exchanges@ =~= seq![ExchangeId::Binance, ExchangeId::Bybit]);
            assert(hedge_exchanges@ =~= seq![ExchangeId::Binance, ExchangeId::Bybit]);
        }
        CrossExchangeMMParams {
            target_spread_bps: 1_500_000_000,
            max_position_per_exchange: 10_000_000,
            max_total_position: 20_000_000,
            default_order_size: 100_000,
            hedge_immediately: true,
            quote_exchanges,
            hedge_exchanges,
        }
    }
}

// ============================================================================
// Spec: the per-venue quote fold
// ============================================================================

/// The quote the maker posts at one venue: half the target spread either
/// side of the fair value, both shifted against that venue's inventory at
/// half strength.
pub open spec fn spec_venue_quote(
    p: CrossExchangeMMParams,
    fair: int,
    pos: int,
) -> (int, int) {
    let skew = if p.max_position_per_exchange > 0 {
        div_trunc(pos * crate::PRECISION, p.max_position_per_exchange as int)
    } else {
        0
    };
    let half = div_trunc(fair * p.target_spread_bps, 2 * crate::BPS_MUL as int);
    let adj = div_trunc(fair * skew * HALF_RATIO, CROSS_SKEW_DIV as int);
    (fair - half - adj, fair + half - adj)
}

/// The quotes over the first `n` quoting venues, in order; a venue at or
/// beyond its position cap is skipped.
pub open spec fn spec_cross_quotes(
    p: CrossExchangeMMParams,
    entries: Seq<(ExchangeId, Quantity)>,
    fair: int,
    n: int,
) -> Seq<(ExchangeId, Price, Price, Quantity, Quantity)>
    decreases n,
{
    if n <= 0 {
        Seq::empty()
    } else {
        let rest = spec_cross_quotes(p, entries, fair, n - 1);
        if 0 <= n - 1 < p.quote_exchanges@.len() {
            let e = p.quote_exchanges@[n - 1];
            let pos = pos_of(entries, e);
            if crate::strategy::abs_int(pos) >= p.max_position_per_exchange {
                rest
            } else {
                let q = spec_venue_quote(p, fair, pos);
                rest.push(
                    (e, q.0 as i64, q.1 as i64, p.default_order_size, p.default_order_size),
                )
            }
        } else {
            rest
        }
    }
}

// ============================================================================
// The cross-venue market maker
// ============================================================================

/// Quotes every configured venue around the NBBO midpoint and hedges each
/// fill at once on the best opposite venue.
pub struct CrossExchangeMM {
    pub params: CrossExchangeMMParams,
    pub enabled: bool,
    pub quotes_sent: u64,
    pub fills: u64,
}

impl CrossExchangeMM {
    /// Parameters inside the bounds the arithmetic needs.
    pub open spec fn wf(&self) -> bool {
        self.params.wf()
    }

    /// A disabled maker.
    pub fn new(params: CrossExchangeMMParams) -> (r: CrossExchangeMM)
        requires
            params.wf(),
        ensures
            r.wf(),
            r.params == params,
            !r.enabled,
            r.quotes_sent == 0,
            r.fills == 0,
    {
        CrossExchangeMM { params, enabled: false, quotes_sent: 0, fills: 0 }
    }

    /// Quote every configured venue around the NBBO midpoint, skipping
    /// venues at their position cap; empty when disabled or when the NBBO
    /// is not a valid two-sided market.
    pub fn compute_quotes(&mut self, book: &ConsolidatedBook, position: &CrossExchangePosition)
        -> (r: MultiExchangeQuotes)
        requires
            old(self).wf(),
            book.wf(),
            position.wf(),
        ensures
            final(self).wf(),
            final(self).params == old(self).params,
            final(self).enabled == old(self).enabled,
            final(self).fills == old(self).fills,
            (!old(self).enabled || !(book.nbbo.best_bid > 0 && book.nbbo.best_ask > 0
                && book.nbbo.best_bid < book.nbbo.best_ask)) ==> !r.should_quote && r.quotes@.len()
                == 0 && *final(self) == *old(self),
            (old(self).enabled && book.nbbo.best_bid > 0 && book.nbbo.best_ask > 0
                && book.nbbo.best_bid < book.nbbo.best_ask) ==> ({
                let fair = (book.nbbo.best_bid + book.nbbo.best_ask) / 2;
                &&& r.quotes@ == spec_cross_quotes(
                    old(self).params,
                    position.entries@,
                    fair as int,
                    old(self).params.quote_exchanges@.len() as int,
                )
                &&& r.should_quote == (r.quotes@.len() > 0)
            }),
    {
        if !self.enabled {
            return MultiExchangeQuotes { quotes: Vec::new(), should_quote: false };
        }
        let nbbo = book.get_nbbo();
        if !nbbo.is_valid() {
            return MultiExchangeQuotes { quotes: Vec::new(), should_quote: false };
        }
        proof {
            assert(book.nbbo.wf());
        }
        let fair_value = (nbbo.best_bid + nbbo.best_ask) / 2;
        proof {
            assert(0 < fair_value <= VALUE_LIMIT);
            assert(0 <= fair_value * self.params.target_spread_bps <= (VALUE_LIMIT as int) * (2
                * crate::BPS_MUL)) by (nonlinear_arith)
                requires
                    0 < fair_value <= VALUE_LIMIT,
                    0 <= self.params.target_spread_bps <= MAX_BPS,
                    2 * (MAX_BPS as int) <= 2 * crate::BPS_MUL,
            ;
            assert((VALUE_LIMIT as int) * (2 * crate::BPS_MUL) == (VALUE_LIMIT as int) * 2
                * crate::BPS_MUL) by (nonlinear_arith);
            lemma_div_trunc_bound(
                fair_value * self.params.target_spread_bps,
                2 * crate::BPS_MUL as int,
                VALUE_LIMIT as int,
            );
        }
        let half_spread = div_wide(
            mul_wide(fair_value, self.params.target_spread_bps),
            2 * crate::BPS_MUL as i128,
        ) as i64;

        let mut quotes: Vec<(ExchangeId, Price, Price, Quantity, Quantity)> = Vec::new();
        let n = self.params.quote_exchanges.len();
        let mut i: usize = 0;
        while i < n
            invariant
                n == self.params.quote_exchanges@.len(),
                i <= n,
                self == old(self),
                self.wf(),
                position.wf(),
                0 < fair_value <= VALUE_LIMIT,
                half_spread == div_trunc(
                    fair_value * self.params.target_spread_bps,
                    2 * crate::BPS_MUL as int,
                ),
                -VALUE_LIMIT <= half_spread <= VALUE_LIMIT,
                quotes@ == spec_cross_quotes(
                    self.params,
                    position.entries@,
                    fair_value as int,
                    i as int,
                ),
            decreases n - i,
        {
            let exchange = self.params.quote_exchanges[i];
            let pos = position.get(exchange);
            let abs_pos = if pos >= 0 {
                pos
            } else {
                -pos
            };
            if abs_pos < self.params.max_position_per_exchange {
                proof {
                    assert(-(self.params.max_position_per_exchange as int) * crate::PRECISION <= pos
                        as int * crate::PRECISION <= (self.params.max_position_per_exchange as int)
                        * crate::PRECISION) by (nonlinear_arith)
                        requires
                            -self.params.max_position_per_exchange <= pos
                                <= self.params.max_position_per_exchange,
                            crate::PRECISION > 0,
                    ;
                    assert((self.params.max_position_per_exchange as int) * crate::PRECISION == (
                    crate::PRECISION as int) * self.params.max_position_per_exchange)
                        by (nonlinear_arith);
                    lemma_div_trunc_bound(
                        pos as int * crate::PRECISION,
                        self.params.max_position_per_exchange as int,
                        crate::PRECISION as int,
                    );
                }
                let skew = div_wide(
                    mul_wide(pos, crate::PRECISION),
                    self.params.max_position_per_exchange as i128,
                ) as i64;
                proof {
                    assert(-((VALUE_LIMIT as int) * crate::PRECISION * HALF_RATIO) <= fair_value
                        as int * skew * HALF_RATIO <= (VALUE_LIMIT as int) * crate::PRECISION
                        * HALF_RATIO) by (nonlinear_arith)
                        requires
                            0 < fair_value <= VALUE_LIMIT,
                            -crate::PRECISION <= skew <= crate::PRECISION,
                            HALF_RATIO > 0,
                    ;
                    assert((VALUE_LIMIT as int) * crate::PRECISION * HALF_RATIO <= (VALUE_LIMIT
                        as int) * CROSS_SKEW_DIV) by (nonlinear_arith);
                    lemma_div_trunc_bound(
                        fair_value as int * skew * HALF_RATIO,
                        CROSS_SKEW_DIV as int,
                        VALUE_LIMIT as int,
                    );
                }
                let t1 = mul_wide(fair_value, skew);
                proof {
                    assert(t1 * HALF_RATIO == fair_value as int * skew * HALF_RATIO)
                        by (nonlinear_arith)
                        requires
                            t1 == fair_value as int * skew,
                    ;
                    assert(-((VALUE_LIMIT as int) * crate::PRECISION) <= t1 <= (VALUE_LIMIT as int)
                        * crate::PRECISION) by (nonlinear_arith)
                        requires
                            0 < fair_value <= VALUE_LIMIT,
                            -crate::PRECISION <= skew <= crate::PRECISION,
                            t1 == fair_value as int * skew,
                    ;
                    assert(-(0x8000_0000_0000_0000_0000_0000_0000_0000int) <= t1 * HALF_RATIO
                        < 0x8000_0000_0000_0000_0000_0000_0000_0000int) by (nonlinear_arith)
                        requires
                            -((VALUE_LIMIT as int) * crate::PRECISION) <= t1 <= (VALUE_LIMIT as int)
                                * crate::PRECISION,
                            0 < HALF_RATIO <= crate::PRECISION,
                    ;
                }
                let skew_adj = div_wide(t1 * (HALF_RATIO as i128), CROSS_SKEW_DIV) as i64;

                let bid_price = fair_value - half_spread - skew_adj;
                let ask_price = fair_value + half_spread - skew_adj;
                quotes.push(
                    (
                        exchange,
                        bid_price,
                        ask_price,
                        self.params.default_order_size,
                        self.params.default_order_size,
                    ),
                );
            }
            i = i + 1;
        }
        let should_quote = quotes.len() > 0;
        if should_quote {
            self.quotes_sent = crate::fixed::wrap_inc(self.quotes_sent);
        }
        MultiExchangeQuotes { quotes, should_quote }
    }

    /// The venue a hedge for this fill goes to: the NBBO leader on the
    /// hedge side when it is another venue, else the first configured
    /// hedge venue that is not the fill venue, else the fill venue itself.
    pub open spec fn spec_hedge_exchange(
        &self,
        nbbo: NBBO,
        fill_exchange: ExchangeId,
        hedge_side: Side,
    ) -> ExchangeId {
        let leader = if hedge_side == Side::Sell {
            nbbo.best_bid_exchange
        } else {
            nbbo.best_ask_exchange
        };
        if leader != fill_exchange {
            leader
        } else {
            spec_first_other(self.params.hedge_exchanges@, fill_exchange)
        }
    }

    /// Hedge a fill at once: the opposite side, on the best venue for it,
    /// at that venue's displayed price; `None` when immediate hedging is
    /// off.
    pub fn compute_hedge(
        &self,
        fill_exchange: ExchangeId,
        fill_side: Side,
        fill_qty: Quantity,
        book: &ConsolidatedBook,
    ) -> (r: Option<(ExchangeId, Order)>)
        requires
            self.wf(),
            book.wf(),
        ensures
            (r is None) <==> !self.params.hedge_immediately,
            r is Some ==> ({
                let (e, o) = r->Some_0;
                let hedge_side = if fill_side == Side::Buy {
                    Side::Sell
                } else {
                    Side::Buy
                };
                &&& e == self.spec_hedge_exchange(book.nbbo, fill_exchange, hedge_side)
                &&& o.venue == e
                &&& o.side == hedge_side
                &&& o.price == if hedge_side == Side::Buy {
                    book.nbbo.best_ask
                } else {
                    book.nbbo.best_bid
                }
                &&& o.quantity == fill_qty
                &&& o.filled_qty == 0
                &&& o.status == OrderStatus::New
                &&& o.symbol == book.symbol
            }),
    {
        if !self.params.hedge_immediately {
            return None;
        }
        let nbbo = book.get_nbbo();
        let hedge_side = fill_side.opposite();
        let leader = match hedge_side {
            Side::Sell => nbbo.best_bid_exchange,
            Side::Buy => nbbo.best_ask_exchange,
        };
        let hedge_exchange = if !crate::consolidated::exchange_eq(leader, fill_exchange) {
            leader
        } else {
            self.first_other_hedge(fill_exchange)
        };
        let hedge_price = match hedge_side {
            Side::Buy => nbbo.best_ask,
            Side::Sell => nbbo.best_bid,
        };
        let order = Order {
            id: 0,
            client_id: 0,
            symbol: book.symbol().duplicate(),
            venue: hedge_exchange,
            side: hedge_side,
            order_type: OrderType::Limit,
            time_in_force: TimeInForce::Gtc,
            price: hedge_price,
            quantity: fill_qty,
            filled_qty: 0,
            status: OrderStatus::New,
            timestamp: now_nanos(),
        };
        Some((hedge_exchange, order))
    }

    /// First configured hedge venue that is not the fill venue, else the
    /// fill venue itself.
    fn first_other_hedge(&self, fill_exchange: ExchangeId) -> (r: ExchangeId)
        ensures
            r == spec_first_other(self.params.hedge_exchanges@, fill_exchange),
    {
        let n = self.params.hedge_exchanges.len();
        let mut i: usize = 0;
        proof {
            assert(self.params.hedge_exchanges@.skip(0) =~= self.params.hedge_exchanges@);
        }
        while i < n
            invariant
                n == self.params.hedge_exchanges@.len(),
                i <= n,
                spec_first_other(self.params.hedge_exchanges@, fill_exchange) == spec_first_other(
                    self.params.hedge_exchanges@.skip(i as int),
                    fill_exchange,
                ),
            decreases n - i,
        {
            let e = self.params.hedge_exchanges[i];
            proof {
                assert(self.params.hedge_exchanges@.skip(i as int)[0] == e);
                assert(self.params.hedge_exchanges@.skip(i as int).drop_first()
                    =~= self.params.hedge_exchanges@.skip(i as int + 1));
            }
            if !crate::consolidated::exchange_eq(e, fill_exchange) {
                return e;
            }
            i = i + 1;
        }
        proof {
            assert(self.params.hedge_exchanges@.skip(n as int).len() == 0);
        }
        fill_exchange
    }

    /// Turn quoting on.
    pub fn enable(&mut self)
        ensures
            *final(self) == (CrossExchangeMM { enabled: true, ..*old(self) }),
    {
        self.enabled = true;
    }

    /// Turn quoting off.
    pub fn disable(&mut self)
        ensures
            *final(self) == (CrossExchangeMM { enabled: false, ..*old(self) }),
    {
        self.enabled = false;
    }

    /// Whether quoting is on.
    pub fn is_enabled(&self) -> (r: bool)
        ensures
            r == self.enabled,
    {
        self.enabled
    }

    /// Quote batches sent so far.
    pub fn quotes_sent(&self) -> (r: u64)
        ensures
            r == self.quotes_sent,
    {
        self.quotes_sent
    }

    /// Fills seen so far.
    pub fn fills(&self) -> (r: u64)
        ensures
            r == self.fills,
    {
        self.fills
    }

    /// Count a fill.
    pub fn on_fill(&mut self)
        ensures
            *final(self) == (CrossExchangeMM { fills: spec_wrap64(old(self).fills), ..*old(self) }),
    {
        self.fills = wrap_inc(self.fills);
    }
}

/// First venue in the list that is not `e`; `e` itself when none is.
pub open spec fn spec_first_other(s: Seq<ExchangeId>, e: ExchangeId) -> ExchangeId
    decreases s.len(),
{
    if s.len() == 0 {
        e
    } else if s[0] != e {
        s[0]
    } else {
        spec_first_other(s.drop_first(), e)
    }
}

} // verus!
