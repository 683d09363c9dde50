//! Fold partitioning for cross-validation.
//!
//! Row indices are laid out in a deterministic order — the identity, or
//! a seeded shuffle — and cut into `k` contiguous groups. Group `f` is
//! fold `f`'s test set; the rest of the order is its training set. Every
//! row lands in exactly one test fold, so the folds cover the dataset
//! completely and without overlap. The shuffle is a function of the row
//! count and the seed alone, which keeps shuffled comparisons
//! reproducible.

use vstd::prelude::*;

verus! {

/// Multiplier of the linear congruential step that drives the shuffle.
pub const LCG_MUL: u64 = 6364136223846793005;
/// Increment of the linear congruential step that drives the shuffle.
pub const LCG_INC: u64 = 1442695040888963407;

/// One train/test split of the row indices.
#[derive(Clone, Debug, PartialEq, Eq)]
pub struct Fold {
    /// Rows held out for scoring.
    pub test_rows: Vec<usize>,
    /// Rows used for fitting: every row not held out, in order.
    pub train_rows: Vec<usize>,
}

/// `s` arranges the row indices `0 .. n`: it has length `n`, holds only
/// indices below `n`, holds no index twice, and holds every index.
pub open spec fn is_index_permutation(s: Seq<usize>, n: int) -> bool {
    &&& s.len() == n
    &&& forall|i: int| 0 <= i < n ==> (#[trigger] s[i]) < n
    &&& forall|i: int, j: int| 0 <= i < j < n ==> s[i] != s[j]
    &&& forall|v: usize| v < n ==> s.contains(v)
}

/// The identity arrangement of `0 .. n`.
pub open spec fn spec_identity_order(n: int) -> Seq<usize> {
    Seq::new(n as nat, |i: int| i as usize)
}

/// One step of the linear congruential generator.
pub open spec fn spec_lcg_next(s: u64) -> u64 {
    (((s as int) * (LCG_MUL as int) + (LCG_INC as int)) % 0x1_0000_0000_0000_0000) as u64
}

/// A draw below `m` from the generator state's high bits.
pub open spec fn spec_rand_below(s: u64, m: int) -> int
    recommends
        m >= 1,
{
    ((s >> 33) as int) % m
}

/// The shuffle, from position `i` down to position `1`: at each
/// position the generator steps once and the position is swapped with a
/// drawn position at or below it.
pub open spec fn spec_fy_from(s: Seq<usize>, i: int, seed: u64) -> Seq<usize>
    decreases i,
{
    if i < 1 {
        s
    } else {
        let s2 = spec_lcg_next(seed);
        let j = spec_rand_below(s2, i + 1);
        spec_fy_from(s.update(i, s[j]).update(j, s[i]), i - 1, s2)
    }
}

/// The shuffled arrangement of `0 .. n` under a seed.
pub open spec fn spec_shuffled_order(n: int, seed: u64) -> Seq<usize> {
    spec_fy_from(spec_identity_order(n), n - 1, seed)
}

/// The arrangement that cross-validation cuts into folds.
pub open spec fn spec_cv_order(n: int, shuffle: bool, seed: u64) -> Seq<usize> {
    if shuffle {
        spec_shuffled_order(n, seed)
    } else {
        spec_identity_order(n)
    }
}

/// Where fold `f`'s test window starts: the first `n % k` folds hold
/// one row more than the rest.
pub open spec fn spec_fold_start(n: int, k: int, f: int) -> int
    recommends
        1 <= k,
{
    f * (n / k) + (if f < n % k {
        f
    } else {
        n % k
    })
}

/// The folds cut the arrangement `order` into `k` contiguous test
/// windows, each fold's training rows being the rest of the arrangement
/// in order.
pub open spec fn spec_partition_post(folds: Seq<Fold>, order: Seq<usize>, k: int) -> bool {
    let n = order.len() as int;
    &&& folds.len() == k
    &&& forall|f: int|
        0 <= f < k ==> (#[trigger] folds[f]).test_rows@ == order.subrange(
            spec_fold_start(n, k, f),
            spec_fold_start(n, k, f + 1),
        )
    &&& forall|f: int|
        0 <= f < k ==> (#[trigger] folds[f]).train_rows@ == order.subrange(
            0,
            spec_fold_start(n, k, f),
        ) + order.subrange(spec_fold_start(n, k, f + 1), n)
    &&& forall|f: int| 0 <= f < k ==> (#[trigger] folds[f]).test_rows@.len() > 0
}

/// The row appears in some fold's test window and in no other's.
pub open spec fn spec_in_one_test_fold(folds: Seq<Fold>, row: usize) -> bool {
    exists|f: int|
        {
            &&& 0 <= f < folds.len()
            &&& (#[trigger] folds[f]).test_rows@.contains(row)
            &&& forall|g: int|
                0 <= g < folds.len() && g != f ==> !(#[trigger] folds[g]).test_rows@.contains(row)
        }
}

/// Complete, non-overlapping coverage: every row below `n` lands in
/// exactly one test fold, and appears in that fold once.
pub open spec fn spec_covers_each_row_once(folds: Seq<Fold>, n: int) -> bool {
    &&& forall|row: usize| row < n ==> spec_in_one_test_fold(folds, row)
    &&& forall|f: int| 0 <= f < folds.len() ==> (#[trigger] folds[f]).test_rows@.no_duplicates()
}

/// One step of the generator.
fn lcg_next(s: u64) -> (r: u64)
    ensures
        r == spec_lcg_next(s),
{
    let a: u128 = s as u128;
    let b: u128 = LCG_MUL as u128;
    let c: u128 = LCG_INC as u128;
    proof {
        assert(a * b <= 0xFFFF_FFFF_FFFF_FFFFu128 * 0xFFFF_FFFF_FFFF_FFFFu128)
            by (nonlinear_arith)
            requires
                a <= 0xFFFF_FFFF_FFFF_FFFFu128,
                b <= 0xFFFF_FFFF_FFFF_FFFFu128,
        ;
    }
    let wide: u128 = a * b + c;
    let low: u128 = wide % 0x1_0000_0000_0000_0000u128;
    proof {
        assert(wide == (s as int) * (LCG_MUL as int) + (LCG_INC as int));
        assert(low < 0x1_0000_0000_0000_0000u128);
    }
    low as u64
}

/// A draw below `m` from the generator state's high bits.
fn rand_below(s: u64, m: usize) -> (r: usize)
    requires
        m >= 1,
    ensures
        r == spec_rand_below(s, m as int),
        r < m,
{
    let h: u64 = s >> 33;
    let rr: u64 = h % (m as u64);
    rr as usize
}

/// The identity arrangement of `0 .. n`.
pub fn identity_order(n: usize) -> (r: Vec<usize>)
    ensures
        r@ == spec_identity_order(n as int),
        is_index_permutation(r@, n as int),
{
    let mut r: Vec<usize> = Vec::new();
    let mut i: usize = 0;
    while i < n
        invariant
            i <= n,
            r@.len() == i,
            forall|p: int| 0 <= p < i ==> r@[p] == p,
        decreases n - i,
    {
        r.push(i);
        i = i + 1;
    }
    proof {
        assert(r@ =~= spec_identity_order(n as int));
        assert forall|v: usize| v < n implies r@.contains(v) by {
            assert(r@[v as int] == v);
        }
    }
    r
}

/// The shuffled arrangement of `0 .. n` under a seed: a permutation,
/// and a function of `n` and the seed alone.
pub fn shuffled_order(n: usize, seed: u64) -> (r: Vec<usize>)
    ensures
        r@ == spec_shuffled_order(n as int, seed),
        is_index_permutation(r@, n as int),
{
    let mut v = identity_order(n);
    if n == 0 {
        return v;
    }
    let mut i: usize = n - 1;
    let mut s: u64 = seed;
    while i >= 1
        invariant
            i < n,
            is_index_permutation(v@, n as int),
            spec_fy_from(v@, i as int, s) == spec_shuffled_order(n as int, seed),
        decreases i,
    {
        let s2 = lcg_next(s);
        let j = rand_below(s2, i + 1);
        let ghost v0 = v@;
        let vi = v[i];
        let vj = v[j];
        v[i] = vj;
        v[j] = vi;
        proof {
            assert(v@ == v0.update(i as int, v0[j as int]).update(j as int, v0[i as int]));
            assert(spec_fy_from(v0, i as int, s) == spec_fy_from(v@, i as int - 1, s2));
            assert forall|p: int| 0 <= p < n implies (#[trigger] v@[p]) < n by {
                if p != i && p != j {
                    assert(v@[p] == v0[p]);
                }
            }
            assert forall|p: int, q: int| 0 <= p < q < n implies v@[p] != v@[q] by {
                let p0: int = if p == i {
                    j as int
                } else if p == j {
                    i as int
                } else {
                    p
                };
                let q0: int = if q == i {
                    j as int
                } else if q == j {
                    i as int
                } else {
                    q
                };
                assert(v@[p] == v0[p0] && v@[q] == v0[q0]);
                assert(p0 != q0);
            }
            assert forall|val: usize| val < n implies v@.contains(val) by {
                assert(v0.contains(val));
                let p = choose|p: int| 0 <= p < v0.len() && v0[p] == val;
                if p == i {
                    assert(v@[j as int] == val);
                } else if p == j {
                    assert(v@[i as int] == val);
                } else {
                    assert(v@[p] == val);
                }
            }
        }
        i = i - 1;
        s = s2;
    }
    v
}

/// Stepping one fold forward adds the fold's size.
proof fn lemma_fold_step(n: int, k: int, f: int)
    requires
        1 <= k <= n,
        0 <= f,
    ensures
        spec_fold_start(n, k, f + 1) == spec_fold_start(n, k, f) + n / k + (if f < n % k {
            1int
        } else {
            0int
        }),
{
    assert((f + 1) * (n / k) == f * (n / k) + n / k) by (nonlinear_arith);
}

/// Fold starts grow, each fold is nonempty, and the windows end at `n`.
proof fn lemma_fold_start_bounds(n: int, k: int, f: int)
    requires
        1 <= k <= n,
        0 <= f <= k,
    ensures
        0 <= spec_fold_start(n, k, f) <= n,
        spec_fold_start(n, k, 0) == 0,
        spec_fold_start(n, k, k) == n,
        f < k ==> spec_fold_start(n, k, f) + 1 <= spec_fold_start(n, k, f + 1),
    decreases k - f,
{
    vstd::arithmetic::div_mod::lemma_fundamental_div_mod(n, k);
    assert(n == k * (n / k) + n % k);
    vstd::arithmetic::div_mod::lemma_div_is_ordered_by_denominator(n, 1, k);
    assert(n / k >= 1) by {
        vstd::arithmetic::div_mod::lemma_div_non_zero(n, k);
    }
    assert(spec_fold_start(n, k, k) == n) by {
        assert(k * (n / k) == k * (n / k));
        assert(spec_fold_start(n, k, k) == k * (n / k) + n % k);
    }
    assert(f * (n / k) >= 0) by (nonlinear_arith)
        requires
            f >= 0,
            n / k >= 1,
    ;
    if f < k {
        lemma_fold_step(n, k, f);
        lemma_fold_start_bounds(n, k, f + 1);
    }
}

/// Every position below `n` falls inside one of the first `fmax` fold
/// windows, provided it lies before their common end.
proof fn lemma_position_in_prefix(n: int, k: int, p: int, fmax: int)
    requires
        1 <= k <= n,
        0 <= fmax <= k,
        0 <= p < spec_fold_start(n, k, fmax),
    ensures
        exists|f: int|
            #![trigger spec_fold_start(n, k, f)]
            0 <= f < fmax && spec_fold_start(n, k, f) <= p < spec_fold_start(n, k, f + 1),
    decreases fmax,
{
    lemma_fold_start_bounds(n, k, fmax);
    if fmax == 0 {
        // contradicts p < start(0) == 0
        assert(false);
    } else {
        lemma_fold_start_bounds(n, k, fmax - 1);
        if p >= spec_fold_start(n, k, fmax - 1) {
            assert(spec_fold_start(n, k, fmax - 1) <= p < spec_fold_start(n, k, fmax));
        } else {
            lemma_position_in_prefix(n, k, p, fmax - 1);
        }
    }
}

/// Fold starts are monotone.
proof fn lemma_fold_start_monotone(n: int, k: int, f: int, g: int)
    requires
        1 <= k <= n,
        0 <= f <= g <= k,
    ensures
        spec_fold_start(n, k, f) <= spec_fold_start(n, k, g),
    decreases g - f,
{
    if f < g {
        lemma_fold_start_bounds(n, k, f);
        lemma_fold_start_monotone(n, k, f + 1, g);
    }
}

/// Cut an arrangement of the rows into `k` folds: contiguous test
/// windows, the rest of the arrangement as training rows. Every row
/// lands in exactly one test window, once.
pub fn partition(order: &Vec<usize>, k: usize) -> (r: Vec<Fold>)
    requires
        1 <= k <= order@.len(),
        is_index_permutation(order@, order@.len() as int),
    ensures
        spec_partition_post(r@, order@, k as int),
        spec_covers_each_row_once(r@, order@.len() as int),
{
    let n = order.len();
    let ghost ni = n as int;
    let ghost ki = k as int;
    let base = n / k;
    let rem = n % k;
    let mut folds: Vec<Fold> = Vec::new();
    let mut start: usize = 0;
    let mut f: usize = 0;
    while f < k
        invariant
            1 <= k <= n,
            n == order@.len(),
            is_index_permutation(order@, ni),
            ni == n as int,
            ki == k as int,
            base == ni / ki,
            rem == ni % ki,
            f <= k,
            folds@.len() == f,
            start == spec_fold_start(ni, ki, f as int),
            start <= n,
            forall|g: int|
                0 <= g < f ==> (#[trigger] folds@[g]).test_rows@ == order@.subrange(
                    spec_fold_start(ni, ki, g),
                    spec_fold_start(ni, ki, g + 1),
                ),
            forall|g: int|
                0 <= g < f ==> (#[trigger] folds@[g]).train_rows@ == order@.subrange(
                    0,
                    spec_fold_start(ni, ki, g),
                ) + order@.subrange(spec_fold_start(ni, ki, g + 1), ni),
            forall|g: int| 0 <= g < f ==> (#[trigger] folds@[g]).test_rows@.len() > 0,
        decreases k - f,
    {
        proof {
            lemma_fold_start_bounds(ni, ki, f as int);
            lemma_fold_step(ni, ki, f as int);
            lemma_fold_start_bounds(ni, ki, f as int + 1);
        }
        let size = if f < rem {
            base + 1
        } else {
            base
        };
        let end = start + size;
        let ghost endi = spec_fold_start(ni, ki, f as int + 1);
        proof {
            assert(end == endi);
        }
        let mut test_rows: Vec<usize> = Vec::new();
        let mut p = start;
        while p < end
            invariant
                start <= p <= end <= n,
                n == order@.len(),
                test_rows@ == order@.subrange(start as int, p as int),
            decreases end - p,
        {
            test_rows.push(order[p]);
            proof {
                assert(test_rows@ =~= order@.subrange(start as int, p as int + 1));
            }
            p = p + 1;
        }
        let mut train_rows: Vec<usize> = Vec::new();
        let mut q: usize = 0;
        while q < start
            invariant
                q <= start <= n,
                n == order@.len(),
                train_rows@ == order@.subrange(0, q as int),
            decreases start - q,
        {
            train_rows.push(order[q]);
            proof {
                assert(train_rows@ =~= order@.subrange(0, q as int + 1));
            }
            q = q + 1;
        }
        let mut q2 = end;
        while q2 < n
            invariant
                end <= q2 <= n,
                n == order@.len(),
                train_rows@ == order@.subrange(0, start as int) + order@.subrange(
                    end as int,
                    q2 as int,
                ),
            decreases n - q2,
        {
            train_rows.push(order[q2]);
            proof {
                assert(train_rows@ =~= order@.subrange(0, start as int) + order@.subrange(
                    end as int,
                    q2 as int + 1,
                ));
            }
            q2 = q2 + 1;
        }
        folds.push(Fold { test_rows, train_rows });
        start = end;
        f = f + 1;
    }
    proof {
        lemma_partition_covers(folds@, order@, ki);
    }
    folds
}

/// A partition into contiguous windows of an arrangement covers every
/// row exactly once.
proof fn lemma_partition_covers(folds: Seq<Fold>, order: Seq<usize>, k: int)
    requires
        1 <= k <= order.len(),
        is_index_permutation(order, order.len() as int),
        spec_partition_post(folds, order, k),
    ensures
        spec_covers_each_row_once(folds, order.len() as int),
{
    let n = order.len() as int;
    assert forall|f: int| 0 <= f < folds.len() implies (
    #[trigger] folds[f]).test_rows@.no_duplicates() by {
        lemma_fold_start_bounds(n, k, f);
        lemma_fold_start_bounds(n, k, f + 1);
        let s = spec_fold_start(n, k, f);
        let t = folds[f].test_rows@;
        assert forall|i: int, j: int| 0 <= i < j < t.len() implies t[i] != t[j] by {
            assert(t[i] == order[s + i] && t[j] == order[s + j]);
        }
    }
    assert forall|row: usize| row < n implies spec_in_one_test_fold(folds, row) by {
        assert(order.contains(row));
        let p = choose|p: int| 0 <= p < order.len() && order[p] == row;
        lemma_fold_start_bounds(n, k, k);
        lemma_position_in_prefix(n, k, p, k);
        let f = choose|f: int|
            #![trigger spec_fold_start(n, k, f)]
            0 <= f < k && spec_fold_start(n, k, f) <= p < spec_fold_start(n, k, f + 1);
        lemma_fold_start_bounds(n, k, f);
        lemma_fold_start_bounds(n, k, f + 1);
        assert(folds[f].test_rows@[p - spec_fold_start(n, k, f)] == row);
        assert(folds[f].test_rows@.contains(row));
        assert forall|g: int| 0 <= g < folds.len() && g != f implies !(
        #[trigger] folds[g]).test_rows@.contains(row) by {
            if folds[g].test_rows@.contains(row) {
                let sg = spec_fold_start(n, k, g);
                let qi = choose|qi: int|
                    0 <= qi < folds[g].test_rows@.len() && folds[g].test_rows@[qi] == row;
                lemma_fold_start_bounds(n, k, g);
                lemma_fold_start_bounds(n, k, g + 1);
                assert(order[sg + qi] == row);
                assert(sg + qi == p);
                if g < f {
                    lemma_fold_start_monotone(n, k, g + 1, f);
                } else {
                    lemma_fold_start_monotone(n, k, f + 1, g);
                }
            }
        }
    }
}

/// Partition the dataset's rows for cross-validation: lay the row
/// indices out in the identity order, or in the seeded shuffled order,
/// and cut the arrangement into `k` folds. Every row lands in exactly
/// one test fold — complete, non-overlapping coverage — and each fold's
/// training rows are all the others.
pub fn cv_partition(n: usize, k: usize, shuffle: bool, seed: u64) -> (r: Vec<Fold>)
    requires
        1 <= k <= n,
    ensures
        spec_partition_post(r@, spec_cv_order(n as int, shuffle, seed), k as int),
        spec_covers_each_row_once(r@, n as int),
{
    let order = if shuffle {
        shuffled_order(n, seed)
    } else {
        identity_order(n)
    };
    partition(&order, k)
}

} // verus!
