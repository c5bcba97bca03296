//! The limit order pool: vanilla and composable sub-pools under one
//! size budget. The tracked size is proved equal to the sum of the
//! resting orders' sizes, so admission and removal never drift.

use vstd::prelude::*;

verus! {

/// A validated order resting in the pool: its identity, the pool it
/// trades in, its size in bytes, and its priority datum.
#[derive(PartialEq, Eq, Structural, Clone, Copy, Debug)]
pub struct PooledOrder {
    pub id: u64,
    pub pool: u64,
    pub size: usize,
    pub priority: u128,
}

/// Why an order was refused.
#[derive(PartialEq, Eq, Structural, Clone, Copy, Debug)]
pub enum LimitPoolError {
    /// The pool has reached its size budget.
    MaxSize(PooledOrder),
    /// An order with this identity already rests in the sub-pool.
    DuplicateNonce(u64, PooledOrder),
}

/// Total size of a sequence of resting orders.
pub open spec fn sum_sizes(s: Seq<PooledOrder>) -> int
    decreases s.len(),
{
    if s.len() == 0 {
        0
    } else {
        sum_sizes(s.drop_last()) + s.last().size
    }
}

/// The sum of sizes is never negative.
pub proof fn lemma_sum_nonneg(s: Seq<PooledOrder>)
    ensures
        sum_sizes(s) >= 0,
    decreases s.len(),
{
    if s.len() > 0 {
        lemma_sum_nonneg(s.drop_last());
    }
}

/// Appending an order adds exactly its size.
pub proof fn lemma_sum_push(s: Seq<PooledOrder>, x: PooledOrder)
    ensures
        sum_sizes(s.push(x)) == sum_sizes(s) + x.size,
{
    assert(s.push(x).drop_last() =~= s);
    assert(s.push(x).last() == x);
}

/// Removing an order subtracts exactly its size.
pub proof fn lemma_sum_remove(s: Seq<PooledOrder>, i: int)
    requires
        0 <= i < s.len(),
    ensures
        sum_sizes(s.remove(i)) == sum_sizes(s) - s[i].size,
    decreases s.len(),
{
    if i == s.len() - 1 {
        assert(s.remove(i) =~= s.drop_last());
    } else {
        assert(s.remove(i).drop_last() =~= s.drop_last().remove(i));
        assert(s.remove(i).last() == s.last());
        lemma_sum_remove(s.drop_last(), i);
    }
}

/// No order identity occurs twice.
pub open spec fn distinct_ids(s: Seq<PooledOrder>) -> bool {
    forall|i: int, j: int| 0 <= i < j < s.len() ==> s[i].id != s[j].id
}

/// Some resting order carries identity `id`.
pub open spec fn has_id(s: Seq<PooledOrder>, id: u64) -> bool {
    exists|i: int| 0 <= i < s.len() && (#[trigger] s[i]).id == id
}

/// The limit order pool: the vanilla and composable sub-pools plus the
/// running size of everything resting in them.
pub struct LimitOrderPool {
    limit_orders: Vec<PooledOrder>,
    composable_orders: Vec<PooledOrder>,
    max_size: Option<usize>,
    current_size: usize,
}

impl LimitOrderPool {
    /// The vanilla sub-pool, for contracts.
    pub closed spec fn spec_limit(self) -> Seq<PooledOrder> {
        self.limit_orders@
    }

    /// The composable sub-pool, for contracts.
    pub closed spec fn spec_composable(self) -> Seq<PooledOrder> {
        self.composable_orders@
    }

    /// The size budget, for contracts.
    pub closed spec fn spec_max_size(self) -> Option<usize> {
        self.max_size
    }

    /// The tracked total size, for contracts.
    pub closed spec fn spec_current_size(self) -> int {
        self.current_size as int
    }

    /// Well-formed: the tracked size is the exact sum of the resting
    /// orders' sizes and identities are unique per sub-pool.
    pub open spec fn wf(self) -> bool {
        &&& self.spec_current_size() == sum_sizes(self.spec_limit()) + sum_sizes(
            self.spec_composable(),
        )
        &&& distinct_ids(self.spec_limit())
        &&& distinct_ids(self.spec_composable())
    }

    /// An order of this size still fits: within the budget, if one is
    /// set, and within the machine's size type in any case.
    pub open spec fn fits(self, size: usize) -> bool {
        &&& self.spec_current_size() + size <= usize::MAX
        &&& match self.spec_max_size() {
            Some(m) => self.spec_current_size() + size <= m,
            None => true,
        }
    }

    /// An empty pool under an optional size budget.
    pub fn new(max_size: Option<usize>) -> (r: Self)
        ensures
            r.wf(),
            r.spec_limit().len() == 0,
            r.spec_composable().len() == 0,
            r.spec_max_size() == max_size,
            r.spec_current_size() == 0,
    {
        LimitOrderPool {
            limit_orders: Vec::new(),
            composable_orders: Vec::new(),
            max_size,
            current_size: 0,
        }
    }

    /// True exactly when an order of this size still fits.
    fn has_space(&self, size: usize) -> (r: bool)
        ensures
            r == self.fits(size),
    {
        if size > usize::MAX - self.current_size {
            return false;
        }
        match self.max_size {
            Some(m) => self.current_size + size <= m,
            None => true,
        }
    }

    /// Admits a vanilla limit order: refused when it does not fit the
    /// size budget or its identity already rests in the vanilla
    /// sub-pool; admitted and counted otherwise.
    pub fn add_limit_order(&mut self, order: PooledOrder) -> (r: Result<(), LimitPoolError>)
        requires
            old(self).wf(),
        ensures
            final(self).wf(),
            final(self).spec_max_size() == old(self).spec_max_size(),
            final(self).spec_composable() == old(self).spec_composable(),
            (r is Ok) == (old(self).fits(order.size) && !has_id(
                old(self).spec_limit(),
                order.id,
            )),
            match r {
                Ok(()) => {
                    &&& old(self).fits(order.size)
                    &&& !has_id(old(self).spec_limit(), order.id)
                    &&& final(self).spec_limit() == old(self).spec_limit().push(order)
                    &&& final(self).spec_current_size() == old(self).spec_current_size()
                        + order.size
                },
                Err(e) => {
                    &&& *final(self) == *old(self)
                    &&& (e == LimitPoolError::MaxSize(order) <==> !old(self).fits(order.size))
                    &&& (e == LimitPoolError::DuplicateNonce(order.id, order) <==> old(
                        self,
                    ).fits(order.size) && has_id(old(self).spec_limit(), order.id))
                },
            },
    {
        if !self.has_space(order.size) {
            return Err(LimitPoolError::MaxSize(order));
        }
        let mut i: usize = 0;
        while i < self.limit_orders.len()
            invariant
                i <= self.limit_orders@.len(),
                old(self).wf(),
                old(self).fits(order.size),
                *self == *old(self),
                forall|j: int| 0 <= j < i ==> (#[trigger] self.limit_orders@[j]).id != order.id,
            decreases self.limit_orders.len() - i,
        {
            if self.limit_orders[i].id == order.id {
                proof {
                    assert(self.spec_limit()[i as int].id == order.id);
                }
                return Err(LimitPoolError::DuplicateNonce(order.id, order));
            }
            i += 1;
        }
        proof {
            lemma_sum_push(self.limit_orders@, order);
            lemma_sum_nonneg(self.composable_orders@);
        }
        self.current_size = self.current_size + order.size;
        self.limit_orders.push(order);
        Ok(())
    }

    /// Admits a composable order: the same admission rule against the
    /// composable sub-pool.
    pub fn add_composable_order(&mut self, order: PooledOrder) -> (r: Result<
        (),
        LimitPoolError,
    >)
        requires
            old(self).wf(),
        ensures
            final(self).wf(),
            final(self).spec_max_size() == old(self).spec_max_size(),
            final(self).spec_limit() == old(self).spec_limit(),
            (r is Ok) == (old(self).fits(order.size) && !has_id(
                old(self).spec_composable(),
                order.id,
            )),
            match r {
                Ok(()) => {
                    &&& old(self).fits(order.size)
                    &&& !has_id(old(self).spec_composable(), order.id)
                    &&& final(self).spec_composable() == old(self).spec_composable().push(
                        order,
                    )
                    &&& final(self).spec_current_size() == old(self).spec_current_size()
                        + order.size
                },
                Err(e) => {
                    &&& *final(self) == *old(self)
                    &&& (e == LimitPoolError::MaxSize(order) <==> !old(self).fits(order.size))
                    &&& (e == LimitPoolError::DuplicateNonce(order.id, order) <==> old(
                        self,
                    ).fits(order.size) && has_id(old(self).spec_composable(), order.id))
                },
            },
    {
        if !self.has_space(order.size) {
            return Err(LimitPoolError::MaxSize(order));
        }
        let mut i: usize = 0;
        while i < self.composable_orders.len()
            invariant
                i <= self.composable_orders@.len(),
                old(self).wf(),
                old(self).fits(order.size),
                *self == *old(self),
                forall|j: int| 0 <= j < i ==> (#[trigger] self.composable_orders@[j]).id
                    != order.id,
            decreases self.composable_orders.len() - i,
        {
            if self.composable_orders[i].id == order.id {
                proof {
                    assert(self.spec_composable()[i as int].id == order.id);
                }
                return Err(LimitPoolError::DuplicateNonce(order.id, order));
            }
            i += 1;
        }
        proof {
            lemma_sum_push(self.composable_orders@, order);
            lemma_sum_nonneg(self.limit_orders@);
        }
        self.current_size = self.current_size + order.size;
        self.composable_orders.push(order);
        Ok(())
    }

    /// All orders resting in the given pool, vanilla then composable.
    pub fn fetch_all_pool_orders(&self, id: u64) -> (r: (Vec<PooledOrder>, Vec<PooledOrder>))
        ensures
            r.0@ == self.spec_limit().filter(|o: PooledOrder| o.pool == id),
            r.1@ == self.spec_composable().filter(|o: PooledOrder| o.pool == id),
    {
        (
            Self::filter_by_pool(&self.limit_orders, id),
            Self::filter_by_pool(&self.composable_orders, id),
        )
    }

    /// Copies out the orders of one pool, in resting order.
    fn filter_by_pool(orders: &Vec<PooledOrder>, id: u64) -> (r: Vec<PooledOrder>)
        ensures
            r@ == orders@.filter(|o: PooledOrder| o.pool == id),
    {
        let mut out: Vec<PooledOrder> = Vec::new();
        let mut i: usize = 0;
        proof {
            assert(orders@.take(0) =~= Seq::<PooledOrder>::empty());
            reveal_with_fuel(Seq::filter, 2);
        }
        while i < orders.len()
            invariant
                i <= orders@.len(),
                out@ == orders@.take(i as int).filter(|o: PooledOrder| o.pool == id),
            decreases orders.len() - i,
        {
            proof {
                assert(orders@.take(i + 1).drop_last() =~= orders@.take(i as int));
                assert(orders@.take(i + 1).last() == orders@[i as int]);
                reveal_with_fuel(Seq::filter, 2);
            }
            if orders[i].pool == id {
                out.push(orders[i]);
            }
            i += 1;
        }
        proof {
            assert(orders@.take(orders@.len() as int) =~= orders@);
        }
        out
    }

    /// Copies of all vanilla orders, in resting order.
    pub fn fetch_all_vanilla_orders(&self) -> (r: Vec<PooledOrder>)
        ensures
            r@ == self.spec_limit(),
    {
        let mut out: Vec<PooledOrder> = Vec::new();
        let mut i: usize = 0;
        while i < self.limit_orders.len()
            invariant
                i <= self.limit_orders@.len(),
                out@ == self.limit_orders@.take(i as int),
            decreases self.limit_orders.len() - i,
        {
            out.push(self.limit_orders[i]);
            proof {
                assert(out@ =~= self.limit_orders@.take(i + 1));
            }
            i += 1;
        }
        proof {
            assert(out@ =~= self.limit_orders@);
        }
        out
    }

    /// Copies of all composable orders, in resting order.
    pub fn fetch_all_composable_orders(&self) -> (r: Vec<PooledOrder>)
        ensures
            r@ == self.spec_composable(),
    {
        let mut out: Vec<PooledOrder> = Vec::new();
        let mut i: usize = 0;
        while i < self.composable_orders.len()
            invariant
                i <= self.composable_orders@.len(),
                out@ == self.composable_orders@.take(i as int),
            decreases self.composable_orders.len() - i,
        {
            out.push(self.composable_orders[i]);
            proof {
                assert(out@ =~= self.composable_orders@.take(i + 1));
            }
            i += 1;
        }
        proof {
            assert(out@ =~= self.composable_orders@);
        }
        out
    }

    /// Evicts the vanilla order with this identity, uncounting its size;
    /// `None` exactly when no such order rests here.
    pub fn remove_limit_order(&mut self, order_id: u64) -> (r: Option<PooledOrder>)
        requires
            old(self).wf(),
        ensures
            final(self).wf(),
            final(self).spec_max_size() == old(self).spec_max_size(),
            final(self).spec_composable() == old(self).spec_composable(),
            (r is Some) == has_id(old(self).spec_limit(), order_id),
            match r {
                Some(o) => {
                    &&& o.id == order_id
                    &&& exists|k: int|
                        0 <= k < old(self).spec_limit().len() && old(self).spec_limit()[k]
                            == o && final(self).spec_limit() == old(self).spec_limit().remove(
                            k,
                        )
                    &&& final(self).spec_current_size() == old(self).spec_current_size()
                        - o.size
                },
                None => *final(self) == *old(self),
            },
    {
        let mut i: usize = 0;
        while i < self.limit_orders.len()
            invariant
                i <= self.limit_orders@.len(),
                old(self).wf(),
                *self == *old(self),
                forall|j: int| 0 <= j < i ==> (#[trigger] self.limit_orders@[j]).id
                    != order_id,
            decreases self.limit_orders.len() - i,
        {
            if self.limit_orders[i].id == order_id {
                proof {
                    lemma_sum_remove(self.limit_orders@, i as int);
                    lemma_sum_nonneg(self.limit_orders@.remove(i as int));
                    lemma_sum_nonneg(self.composable_orders@);
                }
                let removed = self.limit_orders.remove(i);
                self.current_size = self.current_size - removed.size;
                return Some(removed);
            }
            i += 1;
        }
        None
    }

    /// Evicts the composable order with this identity, uncounting its
    /// size; `None` exactly when no such order rests here.
    pub fn remove_composable_limit_order(&mut self, order_id: u64) -> (r: Option<PooledOrder>)
        requires
            old(self).wf(),
        ensures
            final(self).wf(),
            final(self).spec_max_size() == old(self).spec_max_size(),
            final(self).spec_limit() == old(self).spec_limit(),
            (r is Some) == has_id(old(self).spec_composable(), order_id),
            match r {
                Some(o) => {
                    &&& o.id == order_id
                    &&& exists|k: int|
                        0 <= k < old(self).spec_composable().len() && old(
                            self,
                        ).spec_composable()[k] == o && final(self).spec_composable() == old(
                            self,
                        ).spec_composable().remove(k)
                    &&& final(self).spec_current_size() == old(self).spec_current_size()
                        - o.size
                },
                None => *final(self) == *old(self),
            },
    {
        let mut i: usize = 0;
        while i < self.composable_orders.len()
            invariant
                i <= self.composable_orders@.len(),
                old(self).wf(),
                *self == *old(self),
                forall|j: int| 0 <= j < i ==> (#[trigger] self.composable_orders@[j]).id
                    != order_id,
            decreases self.composable_orders.len() - i,
        {
            if self.composable_orders[i].id == order_id {
                proof {
                    lemma_sum_remove(self.composable_orders@, i as int);
                    lemma_sum_nonneg(self.composable_orders@.remove(i as int));
                    lemma_sum_nonneg(self.limit_orders@);
                }
                let removed = self.composable_orders.remove(i);
                self.current_size = self.current_size - removed.size;
                return Some(removed);
            }
            i += 1;
        }
        None
    }
}

} // verus!
