//! Bookkeeping of the exploration phase.
//!
//! The exploration phase repeatedly tries to separate a layout at an ever
//! narrower strip width.  Every feasible layout found at a new, narrower
//! width is recorded; every failed attempt goes into a pool of infeasible
//! layouts, kept ordered by their loss, from which the next attempt is
//! restarted.  The pool is emptied whenever a feasible layout is reached, so
//! its size counts the consecutive failed attempts, and the phase gives up
//! once that count reaches the configured limit.
//!
//! Losses are handed in as `u64` keys whose order is the order of the losses.
use vstd::prelude::*;

verus! {

/// An infeasible layout in the pool, with the key by which the pool orders it.
pub struct PoolEntry<S> {
    pub loss_key: u64,
    pub solution: S,
}

/// The keys of `entries` never decrease from front to back.
pub open spec fn keys_sorted<S>(entries: Seq<PoolEntry<S>>) -> bool {
    forall|i: int, j: int| 0 <= i <= j < entries.len() ==> entries[i].loss_key <= entries[j].loss_key
}

/// `after` is `before` with `entry` placed at a position that keeps the keys
/// ordered: every entry in front of it has a key no larger, every entry behind
/// it a key no smaller.
pub open spec fn inserted_in_order<S>(
    before: Seq<PoolEntry<S>>,
    entry: PoolEntry<S>,
    after: Seq<PoolEntry<S>>,
) -> bool {
    exists|idx: int|
        0 <= idx <= before.len() && after == before.insert(idx, entry) && (forall|i: int|
            0 <= i < idx ==> before[i].loss_key <= entry.loss_key) && (forall|i: int|
            idx <= i < before.len() ==> entry.loss_key <= before[i].loss_key)
}

/// What the two orderings say: in a sorted pool every entry's key is no
/// larger than any key behind it; an entry inserted in order makes the pool
/// one longer, sits at some place with no larger key in front of it and no
/// smaller key behind it, and leaves the other entries in their order.
pub proof fn lemma_order_meaning<S>(
    before: Seq<PoolEntry<S>>,
    entry: PoolEntry<S>,
    after: Seq<PoolEntry<S>>,
)
    ensures
        keys_sorted(after) ==> forall|i: int, j: int|
            0 <= i < j < after.len() ==> after[i].loss_key <= after[j].loss_key,
        inserted_in_order(before, entry, after) ==> {
            &&& after.len() == before.len() + 1
            &&& exists|idx: int|
                0 <= idx <= before.len() && #[trigger] after[idx] == entry && after.subrange(0, idx)
                    == before.subrange(0, idx) && after.subrange(idx + 1, after.len() as int)
                    == before.subrange(idx, before.len() as int) && (forall|i: int|
                    0 <= i < idx ==> before[i].loss_key <= entry.loss_key) && (forall|i: int|
                    idx <= i < before.len() ==> entry.loss_key <= before[i].loss_key)
        },
{
    if inserted_in_order(before, entry, after) {
        let idx = choose|idx: int|
            0 <= idx <= before.len() && after == before.insert(idx, entry) && (forall|i: int|
                0 <= i < idx ==> before[i].loss_key <= entry.loss_key) && (forall|i: int|
                idx <= i < before.len() ==> entry.loss_key <= before[i].loss_key);
        assert(after.subrange(0, idx) =~= before.subrange(0, idx));
        assert(after.subrange(idx + 1, after.len() as int) =~= before.subrange(
            idx,
            before.len() as int,
        ));
        assert(after[idx] == entry);
    }
}

/// The pool of infeasible layouts, best (smallest loss) first.
pub struct InfeasiblePool<S> {
    entries: Vec<PoolEntry<S>>,
}

impl<S> View for InfeasiblePool<S> {
    type V = Seq<PoolEntry<S>>;

    closed spec fn view(&self) -> Seq<PoolEntry<S>> {
        self.entries@
    }
}

impl<S> InfeasiblePool<S> {
    #[verifier::type_invariant]
    spec fn ordered(&self) -> bool {
        keys_sorted(self.entries@)
    }

    /// An empty pool.
    pub fn new() -> (pool: Self)
        ensures
            pool@ == Seq::<PoolEntry<S>>::empty(),
    {
        InfeasiblePool { entries: Vec::new() }
    }

    /// Number of layouts in the pool.
    pub fn len(&self) -> (n: usize)
        ensures
            n == self@.len(),
            keys_sorted(self@),
    {
        proof {
            use_type_invariant(self);
        }
        self.entries.len()
    }

    /// Drops every layout from the pool.
    pub fn clear(&mut self)
        ensures
            final(self)@ == Seq::<PoolEntry<S>>::empty(),
    {
        self.entries = Vec::new();
    }

    /// The entry at `idx` (0 is the smallest loss).
    pub fn get(&self, idx: usize) -> (entry: &PoolEntry<S>)
        requires
            idx < self@.len(),
        ensures
            *entry == self@[idx as int],
            keys_sorted(self@),
    {
        proof {
            use_type_invariant(self);
        }
        &self.entries[idx]
    }

    /// Puts `solution` into the pool at the place its key belongs, in front
    /// of the entries with an equal key.  Returns that place.
    pub fn insert(&mut self, loss_key: u64, solution: S) -> (idx: usize)
        ensures
            idx <= old(self)@.len(),
            final(self)@ == old(self)@.insert(idx as int, PoolEntry { loss_key, solution }),
            forall|i: int| 0 <= i < idx ==> old(self)@[i].loss_key < loss_key,
            forall|i: int| idx <= i < old(self)@.len() ==> loss_key <= old(self)@[i].loss_key,
            inserted_in_order(old(self)@, PoolEntry { loss_key, solution }, final(self)@),
            keys_sorted(final(self)@),
    {
        proof {
            use_type_invariant(&*self);
        }
        let len = self.entries.len();
        let mut lo: usize = 0;
        let mut hi: usize = len;
        while lo < hi
            invariant
                0 <= lo <= hi <= len,
                len == self.entries@.len(),
                keys_sorted(self.entries@),
                forall|i: int| 0 <= i < lo ==> self.entries@[i].loss_key < loss_key,
                forall|i: int| hi <= i < len ==> loss_key <= self.entries@[i].loss_key,
            decreases hi - lo,
        {
            let mid = lo + (hi - lo) / 2;
            if self.entries[mid].loss_key < loss_key {
                lo = mid + 1;
            } else {
                hi = mid;
            }
        }
        let mut entries: Vec<PoolEntry<S>> = Vec::new();
        std::mem::swap(&mut entries, &mut self.entries);
        let ghost before = entries@;
        entries.insert(lo, PoolEntry { loss_key, solution });
        proof {
            let after = entries@;
            assert(after == before.insert(lo as int, PoolEntry { loss_key, solution }));
            assert forall|i: int, j: int| 0 <= i <= j < after.len() implies after[i].loss_key
                <= after[j].loss_key by {
                if i < lo {
                    if j < lo {
                    } else if j == lo {
                    } else {
                        assert(after[j] == before[j - 1]);
                    }
                } else if i == lo {
                    if j > lo {
                        assert(after[j] == before[j - 1]);
                    }
                } else {
                    assert(after[i] == before[i - 1]);
                    assert(after[j] == before[j - 1]);
                }
            }
            assert(inserted_in_order(before, PoolEntry { loss_key, solution }, after));
        }
        self.entries = entries;
        lo
    }
}

/// The limit on consecutive failed attempts: the configured one, or no limit
/// short of the largest `usize`.
pub open spec fn attempt_limit(max_conseq_failed_attempts: Option<usize>) -> int {
    match max_conseq_failed_attempts {
        Some(n) => n as int,
        None => usize::MAX as int,
    }
}

/// Without a configured limit the phase does not give up before the pool
/// holds `usize::MAX` failures; with one, it gives up exactly at that many.
pub proof fn lemma_attempt_limit(max_conseq_failed_attempts: Option<usize>, pool_len: int)
    requires
        0 <= pool_len,
    ensures
        max_conseq_failed_attempts is None ==> (pool_len >= attempt_limit(
            max_conseq_failed_attempts,
        ) <==> pool_len >= usize::MAX),
        max_conseq_failed_attempts matches Some(n) ==> (pool_len >= attempt_limit(
            max_conseq_failed_attempts,
        ) <==> pool_len >= n),
        attempt_limit(max_conseq_failed_attempts) <= usize::MAX,
{
}

/// The state of one exploration phase: the feasible layouts found so far,
/// oldest first, and the pool of layouts of the current run of failures.
pub struct ExplorationRun<S> {
    feasible: Vec<S>,
    pool: InfeasiblePool<S>,
    max_conseq_failed_attempts: Option<usize>,
}

impl<S> ExplorationRun<S> {
    /// A run always holds at least one feasible layout: the one it started from.
    pub closed spec fn wf(&self) -> bool {
        self.feasible@.len() > 0
    }

    /// The feasible layouts recorded so far, oldest first.
    pub closed spec fn feasible(&self) -> Seq<S> {
        self.feasible@
    }

    /// The pool of infeasible layouts.
    pub closed spec fn pool(&self) -> Seq<PoolEntry<S>> {
        self.pool@
    }

    /// The configured limit on consecutive failed attempts.
    pub closed spec fn max_conseq_failed_attempts(&self) -> Option<usize> {
        self.max_conseq_failed_attempts
    }

    /// Starts a phase from the layout it begins with, which counts as the
    /// first feasible one.
    pub fn new(initial: S, max_conseq_failed_attempts: Option<usize>) -> (run: Self)
        ensures
            run.wf(),
            run.feasible() == seq![initial],
            run.pool() == Seq::<PoolEntry<S>>::empty(),
            run.max_conseq_failed_attempts() == max_conseq_failed_attempts,
    {
        let mut feasible = Vec::new();
        feasible.push(initial);
        ExplorationRun { feasible, pool: InfeasiblePool::new(), max_conseq_failed_attempts }
    }

    /// A separation reached a feasible layout.  It is recorded when it was
    /// reached at a width narrower than the best one so far (`narrower`), and
    /// the pool of failures is emptied either way.
    pub fn record_feasible(&mut self, solution: S, narrower: bool)
        requires
            old(self).wf(),
        ensures
            final(self).wf(),
            final(self).feasible() == (if narrower {
                old(self).feasible().push(solution)
            } else {
                old(self).feasible()
            }),
            final(self).pool() == Seq::<PoolEntry<S>>::empty(),
            final(self).max_conseq_failed_attempts() == old(self).max_conseq_failed_attempts(),
    {
        if narrower {
            self.feasible.push(solution);
        }
        self.pool.clear();
    }

    /// A separation failed with a loss whose key is `loss_key`.  The layout
    /// joins the pool in the order of its key; the result says whether the
    /// phase must stop because the pool has reached the limit.
    pub fn record_infeasible(&mut self, solution: S, loss_key: u64) -> (stop: bool)
        requires
            old(self).wf(),
        ensures
            final(self).wf(),
            final(self).feasible() == old(self).feasible(),
            final(self).max_conseq_failed_attempts() == old(self).max_conseq_failed_attempts(),
            final(self).pool().len() == old(self).pool().len() + 1,
            inserted_in_order(old(self).pool(), PoolEntry { loss_key, solution }, final(self).pool()),
            keys_sorted(final(self).pool()),
            stop == (final(self).pool().len() >= attempt_limit(
                old(self).max_conseq_failed_attempts(),
            )),
            old(self).max_conseq_failed_attempts() matches Some(n) ==> (stop <==> (final(self).pool().len() >= n)),
            old(self).max_conseq_failed_attempts() is None ==> (stop <==> (final(self).pool().len() >= usize::MAX)),
            old(self).max_conseq_failed_attempts() is None && final(self).pool().len()
                < usize::MAX ==> !stop,
    {
        self.pool.insert(loss_key, solution);
        let n = self.pool.len();
        match self.max_conseq_failed_attempts {
            Some(limit) => n >= limit,
            None => n >= usize::MAX,
        }
    }

    /// Number of layouts in the pool, that is, of failed attempts since the
    /// last feasible layout.
    pub fn pool_len(&self) -> (n: usize)
        ensures
            n == self.pool().len(),
            keys_sorted(self.pool()),
    {
        self.pool.len()
    }

    /// The pooled layout at `idx`; 0 has the smallest loss.
    pub fn pool_solution(&self, idx: usize) -> (solution: &S)
        requires
            idx < self.pool().len(),
        ensures
            *solution == self.pool()[idx as int].solution,
    {
        &self.pool.get(idx).solution
    }

    /// The most recent feasible layout, from which the next phase continues.
    pub fn last_feasible(&self) -> (solution: &S)
        requires
            self.wf(),
        ensures
            self.feasible().len() > 0,
            *solution == self.feasible().last(),
    {
        &self.feasible[self.feasible.len() - 1]
    }

    /// Ends the phase, handing out the feasible layouts, oldest first.
    pub fn into_feasible(self) -> (solutions: Vec<S>)
        requires
            self.wf(),
        ensures
            solutions@ == self.feasible(),
            solutions@.len() > 0,
    {
        self.feasible
    }
}

} // verus!
