//! A basic order book: bids and asks over an optional market snapshot,
//! sorted on construction by the chosen strategy. Prices and volumes are
//! fixed-point integer amounts.

use vstd::multiset::Multiset;
use vstd::prelude::*;
use vstd::seq_lib::group_to_multiset_ensures;

verus! {

broadcast use group_to_multiset_ensures;

/// A resting order: price and volume as fixed-point integer amounts.
#[derive(PartialEq, Eq, Structural, Clone, Copy, Debug)]
pub struct Order {
    pub price: u128,
    pub volume: u128,
}

/// A pool price as a square-root price in X96 fixed-point form.
#[derive(PartialEq, Eq, Structural, Clone, Copy, Debug)]
pub struct SqrtPriceX96 {
    pub value: u128,
}

impl SqrtPriceX96 {
    /// Wraps a raw X96 fixed-point value.
    pub fn new(value: u128) -> (r: Self)
        ensures
            r.value == value,
    {
        SqrtPriceX96 { value }
    }
}

/// One liquidity range of a market snapshot.
#[derive(PartialEq, Eq, Structural, Clone, Copy, Debug)]
pub struct PriceRange {
    pub lower: u128,
    pub upper: u128,
    pub liquidity: u128,
}

/// A snapshot of an automated market maker's state: its liquidity ranges
/// and current square-root price.
pub struct MarketSnapshot {
    ranges: Vec<PriceRange>,
    sqrt_price: SqrtPriceX96,
}

impl MarketSnapshot {
    /// Every range must be properly ordered.
    pub open spec fn ranges_ok(ranges: Seq<PriceRange>) -> bool {
        forall|i: int| 0 <= i < ranges.len() ==> (#[trigger] ranges[i]).lower < ranges[i].upper
    }

    /// Builds a snapshot; `None` exactly when some range is empty or
    /// inverted.
    pub fn new(ranges: Vec<PriceRange>, sqrt_price: SqrtPriceX96) -> (r: Option<Self>)
        ensures
            (r is Some) == Self::ranges_ok(ranges@),
            match r {
                Some(s) => s.spec_ranges() == ranges@ && s.spec_sqrt_price() == sqrt_price,
                None => true,
            },
    {
        let mut i: usize = 0;
        while i < ranges.len()
            invariant
                i <= ranges@.len(),
                forall|j: int| 0 <= j < i ==> (#[trigger] ranges@[j]).lower < ranges@[j].upper,
            decreases ranges.len() - i,
        {
            if ranges[i].lower >= ranges[i].upper {
                return None;
            }
            i += 1;
        }
        Some(MarketSnapshot { ranges, sqrt_price })
    }

    /// The snapshot's current square-root price.
    pub fn sqrt_price(&self) -> (r: SqrtPriceX96)
        ensures
            r == self.spec_sqrt_price(),
    {
        self.sqrt_price
    }

    /// The snapshot's square-root price, for contracts.
    pub closed spec fn spec_sqrt_price(self) -> SqrtPriceX96 {
        self.sqrt_price
    }

    /// The snapshot's liquidity ranges, for contracts.
    pub closed spec fn spec_ranges(self) -> Seq<PriceRange> {
        self.ranges@
    }
}

/// Bids in descending price order: best bid first.
pub open spec fn sorted_desc(s: Seq<Order>) -> bool {
    forall|i: int, j: int| 0 <= i < j < s.len() ==> s[i].price >= s[j].price
}

/// Asks in ascending price order: best ask first.
pub open spec fn sorted_asc(s: Seq<Order>) -> bool {
    forall|i: int, j: int| 0 <= i < j < s.len() ==> s[i].price <= s[j].price
}

/// How the book orders its sides on construction.
#[derive(PartialEq, Eq, Structural, Clone, Copy, Debug)]
pub enum SortStrategy {
    /// Leave both sides exactly as handed in.
    Unsorted,
    /// Best price first: bids descending, asks ascending.
    ByPrice,
}

impl Default for SortStrategy {
    /// The default strategy leaves the input order untouched.
    fn default() -> (r: Self)
        ensures
            r == SortStrategy::Unsorted,
    {
        SortStrategy::Unsorted
    }
}

/// Index of a maximal-price order in a nonempty slice.
fn index_of_max(v: &Vec<Order>) -> (r: usize)
    requires
        v@.len() > 0,
    ensures
        0 <= r < v@.len(),
        forall|j: int| 0 <= j < v@.len() ==> (#[trigger] v@[j]).price <= v@[r as int].price,
{
    let mut best: usize = 0;
    let mut i: usize = 1;
    while i < v.len()
        invariant
            0 <= best < v@.len(),
            i <= v@.len(),
            forall|j: int| 0 <= j < i ==> (#[trigger] v@[j]).price <= v@[best as int].price,
        decreases v.len() - i,
    {
        if v[i].price > v[best].price {
            best = i;
        }
        i += 1;
    }
    best
}

/// Index of a minimal-price order in a nonempty slice.
fn index_of_min(v: &Vec<Order>) -> (r: usize)
    requires
        v@.len() > 0,
    ensures
        0 <= r < v@.len(),
        forall|j: int| 0 <= j < v@.len() ==> (#[trigger] v@[j]).price >= v@[r as int].price,
{
    let mut best: usize = 0;
    let mut i: usize = 1;
    while i < v.len()
        invariant
            0 <= best < v@.len(),
            i <= v@.len(),
            forall|j: int| 0 <= j < i ==> (#[trigger] v@[j]).price >= v@[best as int].price,
        decreases v.len() - i,
    {
        if v[i].price < v[best].price {
            best = i;
        }
        i += 1;
    }
    best
}

/// Selection sort into descending price order: same orders, best bid
/// first.
pub fn sort_orders_desc(input: Vec<Order>) -> (r: Vec<Order>)
    ensures
        sorted_desc(r@),
        r@.to_multiset() == input@.to_multiset(),
        r@.len() == input@.len(),
{
    let mut rest = input;
    let mut out: Vec<Order> = Vec::new();
    while rest.len() > 0
        invariant
            sorted_desc(out@),
            out@.to_multiset().add(rest@.to_multiset()) =~= input@.to_multiset(),
            out@.len() + rest@.len() == input@.len(),
            forall|a: int, b: int|
                0 <= a < out@.len() && 0 <= b < rest@.len() ==> (#[trigger] out@[a]).price
                    >= (#[trigger] rest@[b]).price,
        decreases rest.len(),
    {
        let idx = index_of_max(&rest);
        let x = rest.remove(idx);
        out.push(x);
        proof {
            assert(out@.to_multiset().add(rest@.to_multiset()) =~= input@.to_multiset());
            assert(sorted_desc(out@));
        }
    }
    proof {
        assert(rest@.to_multiset() =~= Multiset::<Order>::empty());
        assert(out@.to_multiset() =~= input@.to_multiset());
    }
    out
}

/// Selection sort into ascending price order: same orders, best ask
/// first.
pub fn sort_orders_asc(input: Vec<Order>) -> (r: Vec<Order>)
    ensures
        sorted_asc(r@),
        r@.to_multiset() == input@.to_multiset(),
        r@.len() == input@.len(),
{
    let mut rest = input;
    let mut out: Vec<Order> = Vec::new();
    while rest.len() > 0
        invariant
            sorted_asc(out@),
            out@.to_multiset().add(rest@.to_multiset()) =~= input@.to_multiset(),
            out@.len() + rest@.len() == input@.len(),
            forall|a: int, b: int|
                0 <= a < out@.len() && 0 <= b < rest@.len() ==> (#[trigger] out@[a]).price
                    <= (#[trigger] rest@[b]).price,
        decreases rest.len(),
    {
        let idx = index_of_min(&rest);
        let x = rest.remove(idx);
        out.push(x);
        proof {
            assert(out@.to_multiset().add(rest@.to_multiset()) =~= input@.to_multiset());
            assert(sorted_asc(out@));
        }
    }
    proof {
        assert(rest@.to_multiset() =~= Multiset::<Order>::empty());
        assert(out@.to_multiset() =~= input@.to_multiset());
    }
    out
}

impl SortStrategy {
    /// Orders the bid side: descending by price under `ByPrice`,
    /// untouched under `Unsorted`.
    pub fn sort_bids(&self, bids: Vec<Order>) -> (r: Vec<Order>)
        ensures
            *self == SortStrategy::Unsorted ==> r@ == bids@,
            *self == SortStrategy::ByPrice ==> sorted_desc(r@) && r@.to_multiset() == bids@
                .to_multiset() && r@.len() == bids@.len(),
    {
        match self {
            SortStrategy::Unsorted => bids,
            SortStrategy::ByPrice => sort_orders_desc(bids),
        }
    }

    /// Orders the ask side: ascending by price under `ByPrice`,
    /// untouched under `Unsorted`.
    pub fn sort_asks(&self, asks: Vec<Order>) -> (r: Vec<Order>)
        ensures
            *self == SortStrategy::Unsorted ==> r@ == asks@,
            *self == SortStrategy::ByPrice ==> sorted_asc(r@) && r@.to_multiset() == asks@
                .to_multiset() && r@.len() == asks@.len(),
    {
        match self {
            SortStrategy::Unsorted => asks,
            SortStrategy::ByPrice => sort_orders_asc(asks),
        }
    }
}

/// The order book: both sides plus an optional market snapshot, ordered
/// by the strategy chosen at construction.
pub struct OrderBook {
    amm: Option<MarketSnapshot>,
    bids: Vec<Order>,
    asks: Vec<Order>,
}

impl OrderBook {
    /// Builds a book from both sides, ordering them with the given
    /// strategy (the default strategy when none is given).
    pub fn new(
        amm: Option<MarketSnapshot>,
        bids: Vec<Order>,
        asks: Vec<Order>,
        sort: Option<SortStrategy>,
    ) -> (r: Self)
        ensures
            ({
                let strategy = match sort {
                    Some(s) => s,
                    None => SortStrategy::Unsorted,
                };
                &&& (strategy == SortStrategy::Unsorted ==> r.spec_bids() == bids@
                    && r.spec_asks() == asks@)
                &&& (strategy == SortStrategy::ByPrice ==> sorted_desc(r.spec_bids())
                    && r.spec_bids().to_multiset() == bids@.to_multiset() && sorted_asc(
                    r.spec_asks(),
                ) && r.spec_asks().to_multiset() == asks@.to_multiset())
            }),
            r.spec_amm() == amm,
    {
        let strategy = match sort {
            Some(s) => s,
            None => SortStrategy::default(),
        };
        let bids = strategy.sort_bids(bids);
        let asks = strategy.sort_asks(asks);
        OrderBook { amm, bids, asks }
    }

    /// The optional market snapshot, for contracts.
    pub closed spec fn spec_amm(self) -> Option<MarketSnapshot> {
        self.amm
    }

    /// The bid side, for contracts.
    pub closed spec fn spec_bids(self) -> Seq<Order> {
        self.bids@
    }

    /// The ask side, for contracts.
    pub closed spec fn spec_asks(self) -> Seq<Order> {
        self.asks@
    }

    /// The bid side, best bid first under `ByPrice`.
    pub fn bids(&self) -> (r: &Vec<Order>)
        ensures
            r@ == self.spec_bids(),
    {
        &self.bids
    }

    /// The ask side, best ask first under `ByPrice`.
    pub fn asks(&self) -> (r: &Vec<Order>)
        ensures
            r@ == self.spec_asks(),
    {
        &self.asks
    }

    /// The market snapshot, if one was attached.
    pub fn amm(&self) -> (r: Option<&MarketSnapshot>)
        ensures
            match r {
                Some(a) => self.spec_amm() == Some(*a),
                None => self.spec_amm() is None,
            },
    {
        self.amm.as_ref()
    }
}

} // verus!
