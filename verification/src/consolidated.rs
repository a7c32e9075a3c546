//! Multi-venue view: per-venue top-of-book ladders, the National Best Bid
//! and Offer derived from them, and cross-venue arbitrage detection.

use vstd::prelude::*;

use crate::fixed::{div_trunc, div_wide, lemma_div_trunc_bound, min_i64, mul_wide, sat_i64};
use crate::ladder::{qty_at, Ladder, PriceLevel};
use crate::types::{
    now_nanos, valid_price, ArbitrageOpportunity, ExchangeId, ExchangeQuote, Price, Quantity,
    Symbol, Timestamp, VALUE_LIMIT,
};

verus! {

/// Best bid and offer across every venue, with attribution.
#[derive(Debug, Clone, Copy)]
pub struct NBBO {
    pub best_bid: Price,
    pub best_ask: Price,
    pub best_bid_qty: Quantity,
    pub best_ask_qty: Quantity,
    pub best_bid_exchange: ExchangeId,
    pub best_ask_exchange: ExchangeId,
    pub timestamp: Timestamp,
}

impl NBBO {
    /// Prices inside the band the arithmetic needs; zero marks an absent
    /// side.
    pub open spec fn wf(&self) -> bool {
        &&& 0 <= self.best_bid <= VALUE_LIMIT
        &&& 0 <= self.best_ask <= VALUE_LIMIT
    }

    /// An empty NBBO: no side seen yet.
    pub fn empty() -> (r: NBBO)
        ensures
            r.wf(),
            r == (NBBO {
                best_bid: 0i64,
                best_ask: 0i64,
                best_bid_qty: 0i64,
                best_ask_qty: 0i64,
                best_bid_exchange: ExchangeId::Unknown,
                best_ask_exchange: ExchangeId::Unknown,
                timestamp: 0u64,
            }),
    {
        NBBO {
            best_bid: 0,
            best_ask: 0,
            best_bid_qty: 0,
            best_ask_qty: 0,
            best_bid_exchange: ExchangeId::Unknown,
            best_ask_exchange: ExchangeId::Unknown,
            timestamp: 0,
        }
    }

    /// Inside spread; negative when venues cross.
    pub fn spread(&self) -> (r: Price)
        requires
            self.wf(),
        ensures
            r == self.best_ask - self.best_bid,
    {
        self.best_ask - self.best_bid
    }

    /// Inside spread in basis points at fixed-point scale 10^8; zero when
    /// the midpoint is zero.
    pub fn spread_bps(&self) -> (r: i64)
        requires
            self.wf(),
        ensures
            r == ({
                let mid = (self.best_bid + self.best_ask) / 2;
                if mid == 0 {
                    0int
                } else {
                    crate::fixed::clamp_spec(
                        div_trunc((self.best_ask - self.best_bid) * crate::BPS_MUL, mid),
                        i64::MIN as int,
                        i64::MAX as int,
                    )
                }
            }),
    {
        let mid = (self.best_bid + self.best_ask) / 2;
        if mid == 0 {
            0
        } else {
            sat_i64(div_wide(mul_wide(self.best_ask - self.best_bid, crate::BPS_MUL), mid as i128))
        }
    }

    /// Both sides present and not crossed.
    pub fn is_valid(&self) -> (r: bool)
        ensures
            r == (self.best_bid > 0 && self.best_ask > 0 && self.best_bid < self.best_ask),
    {
        self.best_bid > 0 && self.best_ask > 0 && self.best_bid < self.best_ask
    }

    /// A cross-venue opportunity: the best bid on one venue meets or
    /// crosses the best ask on another.
    pub fn has_arbitrage(&self) -> (r: bool)
        ensures
            r == (self.best_bid_exchange != self.best_ask_exchange && self.best_bid
                >= self.best_ask),
    {
        let differ = match (self.best_bid_exchange, self.best_ask_exchange) {
            (ExchangeId::Unknown, ExchangeId::Unknown) => false,
            (ExchangeId::Binance, ExchangeId::Binance) => false,
            (ExchangeId::Bybit, ExchangeId::Bybit) => false,
            (ExchangeId::Okx, ExchangeId::Okx) => false,
            (ExchangeId::Coinbase, ExchangeId::Coinbase) => false,
            (ExchangeId::Kraken, ExchangeId::Kraken) => false,
            _ => true,
        };
        differ && self.best_bid >= self.best_ask
    }
}

// ============================================================================
// Per-venue book
// ============================================================================

/// One venue's top-of-book ladders.
pub struct ExchangeBook {
    pub exchange: ExchangeId,
    pub bids: Ladder,
    pub asks: Ladder,
    pub last_update: Timestamp,
}

impl ExchangeBook {
    /// Both ladders sorted the right way round.
    pub open spec fn wf(&self) -> bool {
        &&& self.bids.wf()
        &&& self.bids.desc == true
        &&& self.asks.wf()
        &&& self.asks.desc == false
    }

    /// Price of this venue's best bid; zero when it has none.
    pub open spec fn spec_bid(&self) -> int {
        if self.bids.levels@.len() == 0 {
            0
        } else {
            self.bids.levels@[0].price as int
        }
    }

    /// Price of this venue's best ask; zero when it has none.
    pub open spec fn spec_ask(&self) -> int {
        if self.asks.levels@.len() == 0 {
            0
        } else {
            self.asks.levels@[0].price as int
        }
    }

    /// An empty book for one venue.
    pub fn new(exchange: ExchangeId) -> (r: ExchangeBook)
        ensures
            r.wf(),
            r.exchange == exchange,
            r.bids.levels@.len() == 0,
            r.asks.levels@.len() == 0,
    {
        ExchangeBook {
            exchange,
            bids: Ladder::new(true),
            asks: Ladder::new(false),
            last_update: 0,
        }
    }

    /// Best bid with its quantity.
    pub fn best_bid(&self) -> (r: Option<(Price, Quantity)>)
        requires
            self.wf(),
        ensures
            r == if self.bids.levels@.len() == 0 {
                None::<(Price, Quantity)>
            } else {
                Some((self.bids.levels@[0].price, self.bids.levels@[0].quantity))
            },
    {
        match self.bids.best() {
            Some(l) => Some((l.price, l.quantity)),
            None => None,
        }
    }

    /// Best ask with its quantity.
    pub fn best_ask(&self) -> (r: Option<(Price, Quantity)>)
        requires
            self.wf(),
        ensures
            r == if self.asks.levels@.len() == 0 {
                None::<(Price, Quantity)>
            } else {
                Some((self.asks.levels@[0].price, self.asks.levels@[0].quantity))
            },
    {
        match self.asks.best() {
            Some(l) => Some((l.price, l.quantity)),
            None => None,
        }
    }

    /// Overwrite (or, at quantity zero, remove) the bid level at `price`.
    pub fn update_bid(&mut self, price: Price, qty: Quantity)
        requires
            old(self).wf(),
            valid_price(price),
            0 <= qty <= VALUE_LIMIT,
        ensures
            final(self).wf(),
            final(self).exchange == old(self).exchange,
            final(self).asks == old(self).asks,
            forall|p: Price| #[trigger] qty_at(final(self).bids.levels@, p) == if p == price {
                qty as int
            } else {
                qty_at(old(self).bids.levels@, p)
            },
    {
        let ts = now_nanos();
        self.bids.set_level(price, qty, 1, ts);
        self.last_update = ts;
    }

    /// Overwrite (or, at quantity zero, remove) the ask level at `price`.
    pub fn update_ask(&mut self, price: Price, qty: Quantity)
        requires
            old(self).wf(),
            valid_price(price),
            0 <= qty <= VALUE_LIMIT,
        ensures
            final(self).wf(),
            final(self).exchange == old(self).exchange,
            final(self).bids == old(self).bids,
            forall|p: Price| #[trigger] qty_at(final(self).asks.levels@, p) == if p == price {
                qty as int
            } else {
                qty_at(old(self).asks.levels@, p)
            },
    {
        let ts = now_nanos();
        self.asks.set_level(price, qty, 1, ts);
        self.last_update = ts;
    }
}

// ============================================================================
// Spec: folding the venues into an NBBO
// ============================================================================

/// The NBBO over the first `n` venue books, folded in order: the highest
/// bid wins; the lowest nonzero ask wins; earlier venues win ties.
pub open spec fn spec_nbbo_fold(s: Seq<ExchangeBook>, n: int) -> NBBO
    decreases n,
{
    if n <= 0 {
        NBBO {
            best_bid: 0,
            best_ask: 0,
            best_bid_qty: 0,
            best_ask_qty: 0,
            best_bid_exchange: ExchangeId::Unknown,
            best_ask_exchange: ExchangeId::Unknown,
            timestamp: 0,
        }
    } else {
        let acc = spec_nbbo_fold(s, n - 1);
        let b = s[n - 1];
        let acc1 = if 0 <= n - 1 < s.len() && b.spec_bid() > acc.best_bid {
            NBBO {
                best_bid: b.spec_bid() as i64,
                best_bid_qty: b.bids.levels@[0].quantity,
                best_bid_exchange: b.exchange,
                ..acc
            }
        } else {
            acc
        };
        if 0 <= n - 1 < s.len() && b.spec_ask() != 0 && (acc1.best_ask == 0 || b.spec_ask()
            < acc1.best_ask) {
            NBBO {
                best_ask: b.spec_ask() as i64,
                best_ask_qty: b.asks.levels@[0].quantity,
                best_ask_exchange: b.exchange,
                ..acc1
            }
        } else {
            acc1
        }
    }
}

/// Every book's prices admissible.
pub open spec fn books_wf(s: Seq<ExchangeBook>) -> bool {
    forall|i: int| 0 <= i < s.len() ==> (#[trigger] s[i]).wf()
}

/// No two books for one venue.
pub open spec fn venues_distinct(s: Seq<ExchangeBook>) -> bool {
    forall|i: int, j: int|
        0 <= i < j < s.len() ==> (#[trigger] s[i].exchange) != (#[trigger] s[j].exchange)
}

/// The folded NBBO really is the best: its bid is the highest bid of any
/// venue and its ask the lowest nonzero ask, each attributed to a venue
/// that quotes it.
pub proof fn lemma_nbbo_fold_is_best(s: Seq<ExchangeBook>, n: int)
    requires
        books_wf(s),
        0 <= n <= s.len(),
    ensures
        ({
            let f = spec_nbbo_fold(s, n);
            &&& forall|j: int| 0 <= j < n ==> f.best_bid >= (#[trigger] s[j]).spec_bid()
            &&& forall|j: int|
                0 <= j < n ==> ((#[trigger] s[j]).spec_ask() == 0 || (f.best_ask != 0 && f.best_ask
                    <= s[j].spec_ask()))
            &&& (f.best_bid != 0 ==> exists|j: int|
                0 <= j < n && (#[trigger] s[j]).spec_bid() == f.best_bid && s[j].exchange
                    == f.best_bid_exchange)
            &&& (f.best_ask != 0 ==> exists|j: int|
                0 <= j < n && (#[trigger] s[j]).spec_ask() == f.best_ask && s[j].exchange
                    == f.best_ask_exchange)
            &&& (f.best_bid == 0 ==> forall|j: int| 0 <= j < n ==> (#[trigger] s[j]).spec_bid() == 0)
            &&& (f.best_ask == 0 ==> forall|j: int| 0 <= j < n ==> (#[trigger] s[j]).spec_ask() == 0)
            &&& 0 <= f.best_bid <= VALUE_LIMIT
            &&& 0 <= f.best_ask <= VALUE_LIMIT
        }),
    decreases n,
{
    if n > 0 {
        lemma_nbbo_fold_is_best(s, n - 1);
        let b = s[n - 1];
        if b.bids.levels@.len() > 0 {
            assert(valid_price(b.bids.levels@[0].price));
        }
        if b.asks.levels@.len() > 0 {
            assert(valid_price(b.asks.levels@[0].price));
        }
    }
}

/// `b1` is `b0` with its top of book rewritten: `bid_qty` now rests at
/// `bid`, `ask_qty` at `ask`, and every other price reads as before.
pub open spec fn venue_book_updated(
    b0: ExchangeBook,
    b1: ExchangeBook,
    bid: Price,
    bid_qty: Quantity,
    ask: Price,
    ask_qty: Quantity,
) -> bool {
    &&& b1.exchange == b0.exchange
    &&& forall|p: Price| #[trigger] qty_at(b1.bids.levels@, p) == if p == bid {
        bid_qty as int
    } else {
        qty_at(b0.bids.levels@, p)
    }
    &&& forall|p: Price| #[trigger] qty_at(b1.asks.levels@, p) == if p == ask {
        ask_qty as int
    } else {
        qty_at(b0.asks.levels@, p)
    }
}

// ============================================================================
// The consolidated book
// ============================================================================

/// Books for each venue, with the NBBO kept current after each update.
pub struct ConsolidatedBook {
    pub symbol: Symbol,
    pub books: Vec<ExchangeBook>,
    pub nbbo: NBBO,
}

impl ConsolidatedBook {
    /// Every book sound, one per venue, and the cached NBBO the fold of
    /// the books (its timestamp aside).
    pub open spec fn wf(&self) -> bool {
        &&& books_wf(self.books@)
        &&& venues_distinct(self.books@)
        &&& self.nbbo == (NBBO {
            timestamp: self.nbbo.timestamp,
            ..spec_nbbo_fold(self.books@, self.books@.len() as int)
        })
        &&& self.nbbo.wf()
    }

    /// An empty consolidated book.
    pub fn new(symbol: Symbol) -> (r: ConsolidatedBook)
        ensures
            r.wf(),
            r.symbol == symbol,
            r.books@.len() == 0,
    {
        ConsolidatedBook { symbol, books: Vec::new(), nbbo: NBBO::empty() }
    }

    /// Apply one venue's fresh top of book and recompute the NBBO.
    pub fn update(
        &mut self,
        exchange: ExchangeId,
        bid: Price,
        bid_qty: Quantity,
        ask: Price,
        ask_qty: Quantity,
    )
        requires
            old(self).wf(),
            valid_price(bid),
            valid_price(ask),
            0 <= bid_qty <= VALUE_LIMIT,
            0 <= ask_qty <= VALUE_LIMIT,
        ensures
            final(self).wf(),
            final(self).symbol == old(self).symbol,
            final(self).nbbo == (NBBO {
                timestamp: final(self).nbbo.timestamp,
                ..spec_nbbo_fold(final(self).books@, final(self).books@.len() as int)
            }),
            (exists|j: int|
                0 <= j < old(self).books@.len() && (#[trigger] old(self).books@[j].exchange)
                    == exchange) ==> exists|j: int|
                0 <= j < old(self).books@.len() && (#[trigger] old(self).books@[j].exchange)
                    == exchange && final(self).books@ =~= old(self).books@.update(
                    j,
                    final(self).books@[j],
                ) && venue_book_updated(
                    old(self).books@[j],
                    final(self).books@[j],
                    bid,
                    bid_qty,
                    ask,
                    ask_qty,
                ),
            (forall|j: int|
                0 <= j < old(self).books@.len() ==> (#[trigger] old(self).books@[j].exchange)
                    != exchange) ==> final(self).books@.len() == old(self).books@.len() + 1
                && final(self).books@ =~= old(self).books@.push(final(self).books@.last())
                && final(self).books@.last().exchange == exchange && (forall|p: Price|
                #[trigger] qty_at(final(self).books@.last().bids.levels@, p) == if p == bid {
                    bid_qty as int
                } else {
                    0int
                }) && (forall|p: Price|
                #[trigger] qty_at(final(self).books@.last().asks.levels@, p) == if p == ask {
                    ask_qty as int
                } else {
                    0int
                }),
    {
        let n = self.books.len();
        let mut i: usize = 0;
        while i < n && !exchange_eq(self.books[i].exchange, exchange)
            invariant
                n == self.books@.len(),
                i <= n,
                forall|j: int| 0 <= j < i ==> (#[trigger] self.books@[j].exchange) != exchange,
                self == old(self),
            decreases n - i,
        {
            i = i + 1;
        }
        if i == n {
            self.books.push(ExchangeBook::new(exchange));
            proof {
                assert forall|a: int, b: int|
                    0 <= a < b < self.books@.len() implies (#[trigger] self.books@[a].exchange) != (
                #[trigger] self.books@[b].exchange) by {
                    if b < self.books@.len() - 1 {
                        assert(old(self).books@[a].exchange != old(self).books@[b].exchange);
                    } else {
                        assert(self.books@[a] == old(self).books@[a]);
                    }
                }
                assert(books_wf(self.books@)) by {
                    assert forall|k: int| 0 <= k < self.books@.len() implies (#[trigger] self.books@[k]).wf() by {
                        if k < self.books@.len() - 1 {
                            assert(self.books@[k] == old(self).books@[k]);
                        }
                    }
                }
            }
        }
        let ghost sb = self.books@;
        let nn = self.books.len();
        proof {
            assert(self.books@[i as int].wf());
        }
        let book = &mut self.books[i];
        book.update_bid(bid, bid_qty);
        book.update_ask(ask, ask_qty);
        proof {
            assert(books_wf(self.books@)) by {
                assert forall|k: int| 0 <= k < self.books@.len() implies (#[trigger] self.books@[k]).wf() by {
                    if k != i as int {
                        assert(self.books@[k] == sb[k]);
                    }
                }
            }
            assert(venues_distinct(self.books@)) by {
                assert forall|a: int, b: int|
                    0 <= a < b < self.books@.len() implies (#[trigger] self.books@[a].exchange) != (
                #[trigger] self.books@[b].exchange) by {
                    assert(sb[a].exchange != sb[b].exchange);
                    if a != i as int {
                        assert(self.books@[a] == sb[a]);
                    }
                    if b != i as int {
                        assert(self.books@[b] == sb[b]);
                    }
                }
            }
        }
        self.recalculate_nbbo();
    }

    /// Rebuild the cached NBBO by walking every venue's book.
    fn recalculate_nbbo(&mut self)
        requires
            books_wf(old(self).books@),
            venues_distinct(old(self).books@),
        ensures
            final(self).books == old(self).books,
            final(self).symbol == old(self).symbol,
            final(self).wf(),
    {
        let ts = now_nanos();
        let mut nbbo = NBBO::empty();
        let n = self.books.len();
        let mut i: usize = 0;
        while i < n
            invariant
                n == self.books@.len(),
                i <= n,
                books_wf(self.books@),
                self == old(self),
                nbbo == (NBBO { timestamp: nbbo.timestamp, ..spec_nbbo_fold(self.books@, i as int) }),
                0 <= nbbo.best_bid <= VALUE_LIMIT,
                0 <= nbbo.best_ask <= VALUE_LIMIT,
            decreases n - i,
        {
            proof {
                assert(self.books@[i as int].wf());
            }
            match self.books[i].best_bid() {
                Some((bp, bq)) => {
                    proof {
                        assert(valid_price(self.books@[i as int].bids.levels@[0].price));
                    }
                    if bp > nbbo.best_bid {
                        nbbo.best_bid = bp;
                        nbbo.best_bid_qty = bq;
                        nbbo.best_bid_exchange = self.books[i].exchange;
                    }
                },
                None => {},
            }
            match self.books[i].best_ask() {
                Some((ap, aq)) => {
                    proof {
                        assert(valid_price(self.books@[i as int].asks.levels@[0].price));
                    }
                    if nbbo.best_ask == 0 || ap < nbbo.best_ask {
                        nbbo.best_ask = ap;
                        nbbo.best_ask_qty = aq;
                        nbbo.best_ask_exchange = self.books[i].exchange;
                    }
                },
                None => {},
            }
            i = i + 1;
        }
        nbbo.timestamp = ts;
        self.nbbo = nbbo;
    }

    /// The cached NBBO.
    pub fn get_nbbo(&self) -> (r: NBBO)
        ensures
            r == self.nbbo,
    {
        self.nbbo
    }

    /// One venue's top of book, if it quotes both sides.
    pub fn get_exchange_quote(&self, exchange: ExchangeId) -> (r: Option<ExchangeQuote>)
        requires
            self.wf(),
        ensures
            r is Some ==> ({
                let q = r->Some_0;
                exists|i: int|
                    0 <= i < self.books@.len() && (#[trigger] self.books@[i].exchange) == exchange
                        && q.exchange == exchange && q.bid == self.books@[i].spec_bid() && q.ask
                        == self.books@[i].spec_ask() && self.books@[i].bids.levels@.len() > 0
                        && self.books@[i].asks.levels@.len() > 0
            }),
            r is None ==> (forall|i: int|
                0 <= i < self.books@.len() ==> (#[trigger] self.books@[i].exchange) != exchange)
                || (exists|i: int|
                0 <= i < self.books@.len() && (#[trigger] self.books@[i].exchange) == exchange && (
                self.books@[i].bids.levels@.len() == 0 || self.books@[i].asks.levels@.len() == 0)),
    {
        let n = self.books.len();
        let mut i: usize = 0;
        while i < n && !exchange_eq(self.books[i].exchange, exchange)
            invariant
                n == self.books@.len(),
                i <= n,
                self.wf(),
                forall|j: int| 0 <= j < i ==> (#[trigger] self.books@[j].exchange) != exchange,
            decreases n - i,
        {
            i = i + 1;
        }
        if i == n {
            return None;
        }
        proof {
            assert(self.books@[i as int].wf());
        }
        let bb = self.books[i].best_bid();
        let ba = self.books[i].best_ask();
        match (bb, ba) {
            (Some((bid, bid_qty)), Some((ask, ask_qty))) => Some(
                ExchangeQuote {
                    exchange,
                    bid,
                    ask,
                    bid_qty,
                    ask_qty,
                    timestamp: self.books[i].last_update,
                    latency_ns: 0,
                },
            ),
            _ => None,
        }
    }

    /// Emit the opportunity the NBBO shows, if any: when the best bid and
    /// best ask sit on different venues and cross (and the midpoint is
    /// positive), buy at the ask venue and sell at the bid venue, for the
    /// smaller of the two displayed quantities, at the crossed amount in
    /// basis points of the midpoint (fixed-point scale 10^8).
    pub fn find_arbitrage(&self) -> (r: Option<ArbitrageOpportunity>)
        requires
            self.wf(),
        ensures
            ({
                let b = self.nbbo;
                let mid = (b.best_bid + b.best_ask) / 2;
                if b.best_bid_exchange != b.best_ask_exchange && b.best_bid > b.best_ask && mid > 0 {
                    r is Some && ({
                        let o = r->Some_0;
                        &&& o.symbol == self.symbol
                        &&& o.buy_exchange == b.best_ask_exchange
                        &&& o.sell_exchange == b.best_bid_exchange
                        &&& o.buy_price == b.best_ask
                        &&& o.sell_price == b.best_bid
                        &&& o.quantity == if b.best_bid_qty <= b.best_ask_qty {
                            b.best_bid_qty
                        } else {
                            b.best_ask_qty
                        }
                        &&& o.profit_bps == crate::fixed::clamp_spec(
                            div_trunc((b.best_bid - b.best_ask) * crate::BPS_MUL, mid),
                            i64::MIN as int,
                            i64::MAX as int,
                        )
                    })
                } else {
                    r is None
                }
            }),
    {
        let nbbo = self.nbbo;
        let differ = !exchange_eq(nbbo.best_bid_exchange, nbbo.best_ask_exchange);
        let mid = (nbbo.best_bid + nbbo.best_ask) / 2;
        if differ && nbbo.best_bid > nbbo.best_ask && mid > 0 {
            let profit_bps = sat_i64(
                div_wide(mul_wide(nbbo.best_bid - nbbo.best_ask, crate::BPS_MUL), mid as i128),
            );
            let qty = min_i64(nbbo.best_bid_qty, nbbo.best_ask_qty);
            Some(
                ArbitrageOpportunity {
                    symbol: self.symbol.duplicate(),
                    buy_exchange: nbbo.best_ask_exchange,
                    sell_exchange: nbbo.best_bid_exchange,
                    buy_price: nbbo.best_ask,
                    sell_price: nbbo.best_bid,
                    quantity: qty,
                    profit_bps,
                    timestamp: now_nanos(),
                },
            )
        } else {
            None
        }
    }

    /// The symbol this consolidated book is for.
    pub fn symbol(&self) -> (r: &Symbol)
        ensures
            *r == self.symbol,
    {
        &self.symbol
    }
}

/// Whether two venue ids are the same venue.
pub fn exchange_eq(a: ExchangeId, b: ExchangeId) -> (r: bool)
    ensures
        r == (a == b),
{
    match (a, b) {
        (ExchangeId::Unknown, ExchangeId::Unknown) => true,
        (ExchangeId::Binance, ExchangeId::Binance) => true,
        (ExchangeId::Bybit, ExchangeId::Bybit) => true,
        (ExchangeId::Okx, ExchangeId::Okx) => true,
        (ExchangeId::Coinbase, ExchangeId::Coinbase) => true,
        (ExchangeId::Kraken, ExchangeId::Kraken) => true,
        _ => false,
    }
}

} // verus!
