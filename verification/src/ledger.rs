//! The comparison ledger.
//!
//! An ordered collection of per-variant comparison results. The order is
//! a total order: primarily by the mean test score under the active
//! metric's direction (the coefficient of determination ranks greater
//! scores first, the error metrics rank smaller scores first), with ties
//! broken by catalog declaration order. Scores enter the ledger as
//! order keys: unsigned integers whose order agrees with the order of
//! the scores they stand for, so that ranking is independent of the
//! numeric representation the caller evaluates models in.

use vstd::prelude::*;
use vstd::seq_lib::group_to_multiset_ensures;
use crate::catalog::{spec_catalog_index, Algorithm};
use crate::error::Error;
use crate::settings::Metric;

verus! {

/// One ledger row: a variant, the order keys of its aggregate train and
/// test scores, and the wall-clock duration of its evaluation in
/// milliseconds (reported, never ranked).
#[derive(Clone, Copy, Debug, PartialEq, Eq, Structural)]
pub struct ComparisonEntry {
    pub algorithm: Algorithm,
    pub mean_train_key: u64,
    pub mean_test_key: u64,
    pub duration_ms: u64,
}

/// The ranking order: `a` may stand at or before `b` under metric `m`.
/// Greater test keys rank first for the coefficient of determination,
/// smaller ones rank first for every other metric; equal keys fall back
/// to catalog declaration order.
pub open spec fn spec_ranks_le(a: ComparisonEntry, b: ComparisonEntry, m: Metric) -> bool {
    ||| (if m == Metric::RSquared {
        a.mean_test_key > b.mean_test_key
    } else {
        a.mean_test_key < b.mean_test_key
    })
    ||| (a.mean_test_key == b.mean_test_key && spec_catalog_index(a.algorithm)
        <= spec_catalog_index(b.algorithm))
}

/// The ranking order, decided.
pub fn ranks_le(a: &ComparisonEntry, b: &ComparisonEntry, m: Metric) -> (r: bool)
    ensures
        r == spec_ranks_le(*a, *b, m),
{
    if a.mean_test_key == b.mean_test_key {
        a.algorithm.catalog_index() <= b.algorithm.catalog_index()
    } else if m == Metric::RSquared {
        a.mean_test_key > b.mean_test_key
    } else {
        a.mean_test_key < b.mean_test_key
    }
}

/// Every pair of entries stands in ranking order.
pub open spec fn spec_ledger_sorted(l: Seq<ComparisonEntry>, m: Metric) -> bool {
    forall|i: int, j: int| 0 <= i < j < l.len() ==> spec_ranks_le(l[i], l[j], m)
}

/// No algorithm appears in two entries.
pub open spec fn spec_distinct_algorithms(l: Seq<ComparisonEntry>) -> bool {
    forall|i: int, j: int| 0 <= i < j < l.len() ==> l[i].algorithm != l[j].algorithm
}

/// Whether some entry carries the given algorithm.
pub open spec fn spec_contains_algorithm(l: Seq<ComparisonEntry>, a: Algorithm) -> bool {
    exists|i: int| 0 <= i < l.len() && l[i].algorithm == a
}

/// The ranking order is total.
pub proof fn lemma_ranks_total(a: ComparisonEntry, b: ComparisonEntry, m: Metric)
    ensures
        spec_ranks_le(a, b, m) || spec_ranks_le(b, a, m),
{
}

/// Two entries that each rank at or before the other tie on the test
/// key and carry the same algorithm.
pub proof fn lemma_ranks_antisymmetric(a: ComparisonEntry, b: ComparisonEntry, m: Metric)
    requires
        spec_ranks_le(a, b, m),
        spec_ranks_le(b, a, m),
    ensures
        a.mean_test_key == b.mean_test_key,
        a.algorithm == b.algorithm,
{
    crate::catalog::lemma_catalog_index_injective(a.algorithm, b.algorithm);
}

/// Ranking is a total order, so the head of a sorted ledger carries the
/// extremal mean test score: the greatest for the coefficient of
/// determination, the least for every other metric.
pub proof fn lemma_ranking_extremal(l: Seq<ComparisonEntry>, m: Metric)
    requires
        spec_ledger_sorted(l, m),
        l.len() > 0,
    ensures
        m == Metric::RSquared ==> forall|i: int| #![trigger l[i]]
            0 <= i < l.len() ==> l[0].mean_test_key >= l[i].mean_test_key,
        m != Metric::RSquared ==> forall|i: int| #![trigger l[i]]
            0 <= i < l.len() ==> l[0].mean_test_key <= l[i].mean_test_key,
{
    assert forall|i: int| #![trigger l[i]] 0 < i < l.len() implies spec_ranks_le(l[0], l[i], m)
        by {}
}

/// Tie-break determinism: the ledger's order is a function of its
/// contents alone. Two sorted ledgers over one metric that hold the
/// same entries — in whatever order the evaluations arrived — are
/// identical, because equal scores fall back to catalog declaration
/// order and no algorithm is recorded twice.
pub proof fn lemma_ledger_order_independent(
    l1: Seq<ComparisonEntry>,
    l2: Seq<ComparisonEntry>,
    m: Metric,
)
    requires
        spec_ledger_sorted(l1, m),
        spec_ledger_sorted(l2, m),
        spec_distinct_algorithms(l1),
        spec_distinct_algorithms(l2),
        l1.to_multiset() == l2.to_multiset(),
    ensures
        l1 == l2,
    decreases l1.len(),
{
    broadcast use group_to_multiset_ensures;

    if l1.len() == 0 {
        assert(l2.to_multiset().len() == 0);
        assert(l1 =~= l2);
    } else {
        let h1 = l1[0];
        let h2 = l2[0];
        assert(l2.len() > 0) by {
            assert(l1.to_multiset().len() > 0);
        }
        // Each head occurs in the other ledger, so each ranks at or
        // before the other.
        assert(l1.contains(h2)) by {
            assert(l2.to_multiset().count(h2) > 0);
        }
        assert(l2.contains(h1)) by {
            assert(l1.to_multiset().count(h1) > 0);
        }
        let i2 = choose|i: int| 0 <= i < l1.len() && l1[i] == h2;
        let i1 = choose|i: int| 0 <= i < l2.len() && l2[i] == h1;
        assert(spec_ranks_le(h1, h2, m)) by {
            if i2 != 0 {
                assert(spec_ranks_le(l1[0], l1[i2], m));
            }
        }
        assert(spec_ranks_le(h2, h1, m)) by {
            if i1 != 0 {
                assert(spec_ranks_le(l2[0], l2[i1], m));
            }
        }
        lemma_ranks_antisymmetric(h1, h2, m);
        // Same algorithm and both present in the first ledger, whose
        // algorithms are distinct: the heads are one entry.
        assert(h1 == h2) by {
            if i2 != 0 {
                assert(l1[0].algorithm != l1[i2].algorithm);
            }
        }
        let t1 = l1.drop_first();
        let t2 = l2.drop_first();
        assert(t1.to_multiset() == t2.to_multiset()) by {
            assert(l1.remove(0) =~= t1);
            assert(l2.remove(0) =~= t2);
            assert(l1.remove(0).to_multiset() =~= l1.to_multiset().remove(h1));
            assert(l2.remove(0).to_multiset() =~= l2.to_multiset().remove(h2));
        }
        assert(spec_ledger_sorted(t1, m) && spec_distinct_algorithms(t1)) by {
            assert(forall|i: int| 0 <= i < t1.len() ==> t1[i] == l1[i + 1]);
        }
        assert(spec_ledger_sorted(t2, m) && spec_distinct_algorithms(t2)) by {
            assert(forall|i: int| 0 <= i < t2.len() ==> t2[i] == l2[i + 1]);
        }
        lemma_ledger_order_independent(t1, t2, m);
        assert(l1 =~= l2) by {
            assert(forall|i: int| 0 < i < l1.len() ==> l1[i] == t1[i - 1] && l2[i] == t2[i - 1]);
        }
    }
}

/// The ledger: entries sorted by the ranking order of its metric, one
/// entry per recorded variant.
#[derive(Clone, Debug)]
pub struct Ledger {
    /// The active ranking metric. Fixed at construction: the order of
    /// the stored entries is tied to it.
    pub metric: Metric,
    /// The rows, in ranking order.
    pub entries: Vec<ComparisonEntry>,
}

impl Ledger {
    /// Well-formed: sorted by the ranking order, no algorithm twice.
    pub open spec fn wf(self) -> bool {
        &&& spec_ledger_sorted(self.entries@, self.metric)
        &&& spec_distinct_algorithms(self.entries@)
    }

    /// An empty ledger ranked by the given metric.
    pub fn new(metric: Metric) -> (r: Self)
        ensures
            r.wf(),
            r.metric == metric,
            r.entries@.len() == 0,
    {
        Ledger { metric, entries: Vec::new() }
    }

    /// Whether a variant has been recorded.
    pub fn contains_algorithm(&self, a: Algorithm) -> (r: bool)
        ensures
            r == spec_contains_algorithm(self.entries@, a),
    {
        let mut i: usize = 0;
        while i < self.entries.len()
            invariant
                i <= self.entries@.len(),
                forall|j: int| 0 <= j < i ==> self.entries@[j].algorithm != a,
            decreases self.entries@.len() - i,
        {
            if self.entries[i].algorithm == a {
                return true;
            }
            i = i + 1;
        }
        false
    }

    /// Record one evaluation result: insert the entry at its ranking
    /// position. The resulting ledger holds exactly the old entries and
    /// the new one, and is again sorted — by `lemma_ledger_order_independent`
    /// it is the single sorted arrangement of those contents, whatever
    /// order they were recorded in.
    pub fn record(&mut self, e: ComparisonEntry)
        requires
            old(self).wf(),
            !spec_contains_algorithm(old(self).entries@, e.algorithm),
        ensures
            final(self).wf(),
            final(self).metric == old(self).metric,
            final(self).entries@.len() == old(self).entries@.len() + 1,
            final(self).entries@.to_multiset() == old(self).entries@.to_multiset().insert(e),
            spec_contains_algorithm(final(self).entries@, e.algorithm),
    {
        broadcast use group_to_multiset_ensures;

        let ghost l0 = self.entries@;
        let ghost met = self.metric;
        let mut idx: usize = 0;
        while idx < self.entries.len() && ranks_le(&self.entries[idx], &e, self.metric)
            invariant
                self.entries@ == l0,
                self.metric == met,
                idx <= l0.len(),
                forall|j: int| 0 <= j < idx ==> spec_ranks_le(l0[j], e, met),
            decreases l0.len() - idx,
        {
            idx = idx + 1;
        }
        proof {
            if idx < l0.len() {
                lemma_ranks_total(e, l0[idx as int], met);
            }
            assert forall|j: int| idx <= j < l0.len() implies spec_ranks_le(e, l0[j], met) by {
                assert(spec_ranks_le(e, l0[idx as int], met));
                if j > idx {
                    assert(spec_ranks_le(l0[idx as int], l0[j], met));
                }
            }
        }
        self.entries.insert(idx, e);
        proof {
            let l1 = self.entries@;
            assert(l1 == l0.insert(idx as int, e));
            assert forall|i: int, j: int| 0 <= i < j < l1.len() implies spec_ranks_le(
                l1[i],
                l1[j],
                met,
            ) by {
                if j < idx {
                    assert(l1[i] == l0[i] && l1[j] == l0[j]);
                } else if i < idx && j == idx {
                    assert(l1[i] == l0[i]);
                    assert(spec_ranks_le(l0[i], e, met));
                } else if i < idx && j > idx {
                    assert(l1[i] == l0[i] && l1[j] == l0[j - 1]);
                } else if i == idx {
                    assert(l1[j] == l0[j - 1]);
                    assert(spec_ranks_le(e, l0[j - 1], met));
                } else {
                    assert(l1[i] == l0[i - 1] && l1[j] == l0[j - 1]);
                }
            }
            assert forall|i: int, j: int| 0 <= i < j < l1.len() implies l1[i].algorithm
                != l1[j].algorithm by {
                if i == idx {
                    assert(l1[j] == l0[j - 1]);
                } else if j == idx {
                    assert(l1[i] == l0[i]);
                } else if i < idx && j > idx {
                    assert(l1[i] == l0[i] && l1[j] == l0[j - 1]);
                } else if j < idx {
                    assert(l1[i] == l0[i] && l1[j] == l0[j]);
                } else {
                    assert(l1[i] == l0[i - 1] && l1[j] == l0[j - 1]);
                }
            }
            vstd::seq_lib::to_multiset_insert(l0, idx as int, e);
            assert(l1[idx as int].algorithm == e.algorithm);
        }
    }

    /// The top entry, or `EmptyLedger` when no variant was recorded.
    /// By the sorted invariant the top entry's mean test key is
    /// extremal among all recorded entries, in the direction of the
    /// active metric.
    pub fn best(&self) -> (r: Result<ComparisonEntry, Error>)
        requires
            self.wf(),
        ensures
            self.entries@.len() == 0 ==> r == Err::<ComparisonEntry, Error>(Error::EmptyLedger),
            self.entries@.len() > 0 ==> r == Ok::<ComparisonEntry, Error>(self.entries@[0]),
            r is Ok ==> forall|i: int|
                0 <= i < self.entries@.len() ==> spec_ranks_le(
                    r->Ok_0,
                    self.entries@[i],
                    self.metric,
                ),
    {
        if self.entries.len() == 0 {
            Err(Error::EmptyLedger)
        } else {
            let top = self.entries[0];
            proof {
                lemma_ranking_extremal(self.entries@, self.metric);
            }
            Ok(top)
        }
    }

    /// The number of recorded entries.
    pub fn len(&self) -> (r: usize)
        ensures
            r == self.entries@.len(),
    {
        self.entries.len()
    }
}

} // verus!
