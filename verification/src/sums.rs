//! Sums of an integer-valued function over finite sets of accounts, used to
//! state the ledger and aggregate invariants.
use vstd::prelude::*;
use vstd::set::fold::{lemma_fold_empty, lemma_fold_insert, lemma_finite_set_induct};

verus! {

/// The sum of `f` over the finite set `s`.
pub open spec fn sum_over(s: Set<u64>, f: spec_fn(u64) -> int) -> int {
    s.fold(0, |acc: int, k: u64| acc + f(k))
}

pub proof fn lemma_sum_empty(f: spec_fn(u64) -> int)
    ensures
        sum_over(Set::empty(), f) == 0,
{
    lemma_fold_empty(0int, |acc: int, k: u64| acc + f(k));
}

pub proof fn lemma_sum_insert(s: Set<u64>, f: spec_fn(u64) -> int, x: u64)
    requires
        s.finite(),
        !s.contains(x),
    ensures
        sum_over(s.insert(x), f) == sum_over(s, f) + f(x),
{
    lemma_fold_insert(s, 0int, |acc: int, k: u64| acc + f(k), x);
}

pub proof fn lemma_sum_remove(s: Set<u64>, f: spec_fn(u64) -> int, x: u64)
    requires
        s.finite(),
        s.contains(x),
    ensures
        sum_over(s, f) == sum_over(s.remove(x), f) + f(x),
{
    let removed = s.remove(x);
    assert(removed.insert(x) =~= s);
    lemma_sum_insert(removed, f, x);
}

/// Two functions that agree on every element of `s` sum to the same value.
pub proof fn lemma_sum_congruence(s: Set<u64>, f: spec_fn(u64) -> int, g: spec_fn(u64) -> int)
    requires
        s.finite(),
        forall|k: u64| s.contains(k) ==> f(k) == g(k),
    ensures
        sum_over(s, f) == sum_over(s, g),
{
    let pred = |t: Set<u64>|
        (t.subset_of(s) ==> sum_over(t, f) == sum_over(t, g));
    assert(pred(Set::empty())) by {
        lemma_sum_empty(f);
        lemma_sum_empty(g);
    }
    assert forall|t: Set<u64>, a: u64|
        pred(t) && t.finite() && !t.contains(a) implies #[trigger] pred(t.insert(a)) by {
        if t.insert(a).subset_of(s) {
            assert(t.subset_of(s));
            assert(s.contains(a));
            lemma_sum_insert(t, f, a);
            lemma_sum_insert(t, g, a);
        }
    }
    lemma_finite_set_induct(s, pred);
    assert(s.subset_of(s));
}

/// A sum of non-negative contributions is non-negative.
pub proof fn lemma_sum_nonneg(s: Set<u64>, f: spec_fn(u64) -> int)
    requires
        s.finite(),
        forall|k: u64| s.contains(k) ==> f(k) >= 0,
    ensures
        sum_over(s, f) >= 0,
{
    let pred = |t: Set<u64>|
        (t.subset_of(s) ==> sum_over(t, f) >= 0);
    assert(pred(Set::empty())) by {
        lemma_sum_empty(f);
    }
    assert forall|t: Set<u64>, a: u64|
        pred(t) && t.finite() && !t.contains(a) implies #[trigger] pred(t.insert(a)) by {
        if t.insert(a).subset_of(s) {
            assert(t.subset_of(s));
            assert(s.contains(a));
            lemma_sum_insert(t, f, a);
        }
    }
    lemma_finite_set_induct(s, pred);
    assert(s.subset_of(s));
}

/// One member's contribution never exceeds a sum of non-negative
/// contributions.
pub proof fn lemma_sum_member_bound(s: Set<u64>, f: spec_fn(u64) -> int, x: u64)
    requires
        s.finite(),
        s.contains(x),
        forall|k: u64| s.contains(k) ==> f(k) >= 0,
    ensures
        f(x) <= sum_over(s, f),
{
    lemma_sum_remove(s, f, x);
    lemma_sum_nonneg(s.remove(x), f);
}

/// Summing over disjoint sets adds the sums.
pub proof fn lemma_sum_union_disjoint(a: Set<u64>, b: Set<u64>, f: spec_fn(u64) -> int)
    requires
        a.finite(),
        b.finite(),
        a.disjoint(b),
    ensures
        sum_over(a.union(b), f) == sum_over(a, f) + sum_over(b, f),
{
    let pred = |t: Set<u64>|
        (t.subset_of(b) ==> sum_over(a.union(t), f) == sum_over(a, f) + sum_over(t, f));
    assert(pred(Set::empty())) by {
        lemma_sum_empty(f);
        assert(a.union(Set::empty()) =~= a);
    }
    assert forall|t: Set<u64>, x: u64|
        pred(t) && t.finite() && !t.contains(x) implies #[trigger] pred(t.insert(x)) by {
        if t.insert(x).subset_of(b) {
            assert(t.subset_of(b));
            assert(b.contains(x));
            assert(!a.union(t).contains(x));
            assert(a.union(t).finite()) by {
                vstd::set_lib::lemma_set_union_finite_iff(a, t);
            }
            assert(a.union(t.insert(x)) =~= a.union(t).insert(x));
            lemma_sum_insert(a.union(t), f, x);
            lemma_sum_insert(t, f, x);
        }
    }
    lemma_finite_set_induct(b, pred);
    assert(b.subset_of(b));
}

/// A sum over a subset never exceeds the sum over the whole set, when every
/// contribution is non-negative.
pub proof fn lemma_sum_subset_le(a: Set<u64>, b: Set<u64>, f: spec_fn(u64) -> int)
    requires
        b.finite(),
        a.subset_of(b),
        forall|k: u64| b.contains(k) ==> f(k) >= 0,
    ensures
        sum_over(a, f) <= sum_over(b, f),
{
    let rest = b.difference(a);
    assert(a.finite()) by {
        vstd::set_lib::lemma_set_subset_finite(b, a);
    }
    assert(rest.finite()) by {
        vstd::set_lib::lemma_set_subset_finite(b, rest);
    }
    assert(a.disjoint(rest));
    assert(a.union(rest) =~= b);
    lemma_sum_union_disjoint(a, rest, f);
    lemma_sum_nonneg(rest, f);
}

} // verus!
