//! An adversarial sequence producer whose advertised length and actual
//! length are configured independently and may diverge.

use vstd::prelude::*;

verus! {

/// A sequence producer that is untruthful about its actual length.
///
/// It genuinely produces exactly `limit` items, cycling through the
/// backing pool `items`, yet its declared size hint reports `claimed`
/// forever, however production proceeds. The divergence is deliberate:
/// it exists to stress consumers that trust a producer's size hint.
#[derive(Debug, Clone)]
pub struct BadIterator<T> {
    /// where the producer currently is
    cur: usize,
    /// how many items this producer will *actually* make
    limit: usize,
    /// how many items this producer claims it will make
    claimed: usize,
    /// The items to return. If there are fewer items than `limit`
    /// they will be repeated
    pub items: Vec<T>,
}

impl<T> BadIterator<T> {
    /// How many items have been produced so far.
    pub closed spec fn position(self) -> nat {
        self.cur as nat
    }

    /// How many items this producer will actually yield in total.
    pub closed spec fn actual_limit(self) -> nat {
        self.limit as nat
    }

    /// How many items this producer claims it will yield.
    pub closed spec fn claimed_count(self) -> nat {
        self.claimed as nat
    }

    /// The backing item pool.
    pub closed spec fn pool(self) -> Seq<T> {
        self.items@
    }

    /// The backing pool is non-empty and the position never passes the
    /// actual limit.
    pub open spec fn wf(self) -> bool {
        &&& self.pool().len() > 0
        &&& self.position() <= self.actual_limit()
    }

    /// The item produced by the call made at position `k`: the pool is
    /// cycled, so it is the pool entry at `k` modulo the pool length.
    pub open spec fn item_at(self, k: int) -> T
        recommends
            self.pool().len() > 0,
    {
        self.pool()[k % self.pool().len() as int]
    }

    /// Create a new producer of `limit` items that reports it will
    /// produce `claimed` items. At least one item must be provided.
    pub fn new(limit: usize, claimed: usize, items: Vec<T>) -> (r: Self)
        requires
            items@.len() > 0,
        ensures
            r.wf(),
            r.position() == 0,
            r.actual_limit() == limit,
            r.claimed_count() == claimed,
            r.pool() == items@,
    {
        Self { cur: 0, limit, claimed, items }
    }

    /// Create a new producer, refusing an empty backing pool instead of
    /// treating it as a caller fault.
    pub fn try_new(limit: usize, claimed: usize, items: Vec<T>) -> (r: Option<Self>)
        ensures
            r is Some <==> items@.len() > 0,
            r matches Some(p) ==> {
                &&& p.wf()
                &&& p.position() == 0
                &&& p.actual_limit() == limit
                &&& p.claimed_count() == claimed
                &&& p.pool() == items@
            },
    {
        if items.len() > 0 {
            Some(Self::new(limit, claimed, items))
        } else {
            None
        }
    }

    /// Cycling law: production is periodic in the pool length. The item
    /// produced at any position one whole pool beyond `k` is the item
    /// produced at `k` itself.
    pub proof fn lemma_pool_cycles(self, k: int)
        requires
            self.pool().len() > 0,
            k >= 0,
        ensures
            self.item_at(k + self.pool().len()) == self.item_at(k),
    {
        let m = self.pool().len() as int;
        vstd::arithmetic::div_mod::lemma_mod_multiples_vanish(1, k, m);
        assert(m * 1 + k == k + m);
    }
}

impl<T: Clone> BadIterator<T> {
    /// Produce the next item, or report exhaustion.
    ///
    /// While the position is below the actual limit, this yields a clone
    /// of the pool entry at the current position modulo the pool length
    /// and advances the position by one. Once the position reaches the
    /// limit, every call returns `None` and the position stays put.
    pub fn next(&mut self) -> (r: Option<T>)
        requires
            old(self).wf(),
        ensures
            final(self).wf(),
            final(self).pool() == old(self).pool(),
            final(self).actual_limit() == old(self).actual_limit(),
            final(self).claimed_count() == old(self).claimed_count(),
            old(self).position() < old(self).actual_limit() ==> {
                &&& final(self).position() == old(self).position() + 1
                &&& r matches Some(v) && cloned(old(self).item_at(old(self).position() as int), v)
            },
            old(self).position() >= old(self).actual_limit() ==> {
                &&& final(self).position() == old(self).position()
                &&& r is None
            },
    {
        if self.cur < self.limit {
            let next_item_idx = self.cur % self.items.len();
            let next_item = self.items[next_item_idx].clone();
            self.cur = self.cur + 1;
            Some(next_item)
        } else {
            None
        }
    }

    /// Report whatever the producer was told to claim: a lower bound of
    /// zero and an upper bound of the claimed count fixed at
    /// construction. The hint never corrects itself as production
    /// proceeds, however far the claim diverges from the actual limit.
    pub fn size_hint(&self) -> (r: (usize, Option<usize>))
        ensures
            r.0 == 0,
            r.1 matches Some(c) && c == self.claimed_count(),
    {
        (0, Some(self.claimed))
    }
}

} // verus!
