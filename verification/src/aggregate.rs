//! Summation and selection over sequences of records.
//!
//! The ledgers keep derived figures (an open-record count, a running
//! total) alongside their record stores. Their well-formedness predicates
//! state that each cached figure equals a fold over the record sequence;
//! the lemmas here say how such folds move when a record is appended or
//! replaced, which is exactly what create and settle operations do.

use vstd::prelude::*;

verus! {

/// The sum of `f` over every element of `s`.
pub open spec fn sum_by<A>(s: Seq<A>, f: spec_fn(A) -> int) -> int
    decreases s.len(),
{
    if s.len() == 0 {
        0
    } else {
        sum_by(s.drop_last(), f) + f(s.last())
    }
}

/// The subsequence of `s`, in order, whose elements satisfy `pred`.
pub open spec fn keep_by<A>(s: Seq<A>, pred: spec_fn(A) -> bool) -> Seq<A>
    decreases s.len(),
{
    if s.len() == 0 {
        Seq::empty()
    } else {
        let rest = keep_by(s.drop_last(), pred);
        if pred(s.last()) {
            rest.push(s.last())
        } else {
            rest
        }
    }
}

/// Appending an element adds its contribution to the sum.
pub proof fn lemma_sum_by_push<A>(s: Seq<A>, f: spec_fn(A) -> int, x: A)
    ensures
        sum_by(s.push(x), f) == sum_by(s, f) + f(x),
{
    assert(s.push(x).drop_last() =~= s);
}

/// Replacing the element at `i` exchanges its contribution for the new one.
pub proof fn lemma_sum_by_update<A>(s: Seq<A>, f: spec_fn(A) -> int, i: int, x: A)
    requires
        0 <= i < s.len(),
    ensures
        sum_by(s.update(i, x), f) == sum_by(s, f) - f(s[i]) + f(x),
    decreases s.len(),
{
    let t = s.update(i, x);
    if i == s.len() - 1 {
        assert(t.drop_last() =~= s.drop_last());
        assert(t.last() == x);
    } else {
        assert(t.drop_last() =~= s.drop_last().update(i, x));
        assert(t.last() == s.last());
        lemma_sum_by_update(s.drop_last(), f, i, x);
        assert(s.drop_last()[i] == s[i]);
    }
}

/// A sum of non-negative contributions is non-negative.
pub proof fn lemma_sum_by_nonneg<A>(s: Seq<A>, f: spec_fn(A) -> int)
    requires
        forall|i: int| 0 <= i < s.len() ==> f(#[trigger] s[i]) >= 0,
    ensures
        sum_by(s, f) >= 0,
    decreases s.len(),
{
    if s.len() > 0 {
        assert(forall|i: int|
            0 <= i < s.drop_last().len() ==> f(#[trigger] s.drop_last()[i]) >= 0);
        lemma_sum_by_nonneg(s.drop_last(), f);
    }
}

/// A sum of contributions that are each 0 or 1 lies between 0 and the length.
pub proof fn lemma_sum_by_le_len<A>(s: Seq<A>, f: spec_fn(A) -> int)
    requires
        forall|i: int| 0 <= i < s.len() ==> 0 <= f(#[trigger] s[i]) <= 1,
    ensures
        0 <= sum_by(s, f) <= s.len(),
    decreases s.len(),
{
    if s.len() > 0 {
        assert(forall|i: int|
            0 <= i < s.drop_last().len() ==> 0 <= f(#[trigger] s.drop_last()[i]) <= 1);
        lemma_sum_by_le_len(s.drop_last(), f);
    }
}

/// With non-negative contributions, no single element exceeds the sum.
pub proof fn lemma_sum_by_elem_bound<A>(s: Seq<A>, f: spec_fn(A) -> int, k: int)
    requires
        forall|i: int| 0 <= i < s.len() ==> f(#[trigger] s[i]) >= 0,
        0 <= k < s.len(),
    ensures
        f(s[k]) <= sum_by(s, f),
    decreases s.len(),
{
    assert(forall|i: int|
        0 <= i < s.drop_last().len() ==> f(#[trigger] s.drop_last()[i]) >= 0);
    if k == s.len() - 1 {
        lemma_sum_by_nonneg(s.drop_last(), f);
    } else {
        lemma_sum_by_elem_bound(s.drop_last(), f, k);
        assert(s.drop_last()[k] == s[k]);
    }
}

/// Two contributions that split each element between them — every element
/// counts once, under exactly one of the two — sum to the length.
pub proof fn lemma_sum_by_complement<A>(s: Seq<A>, f: spec_fn(A) -> int, g: spec_fn(A) -> int)
    requires
        forall|i: int| 0 <= i < s.len() ==> f(#[trigger] s[i]) + g(s[i]) == 1,
    ensures
        sum_by(s, f) + sum_by(s, g) == s.len(),
    decreases s.len(),
{
    if s.len() > 0 {
        assert(forall|i: int|
            0 <= i < s.drop_last().len() ==> f(#[trigger] s.drop_last()[i]) + g(s.drop_last()[i])
                == 1);
        lemma_sum_by_complement(s.drop_last(), f, g);
    }
}

/// Appending an element either appends it to the selection or leaves the
/// selection as it was, according to the predicate.
pub proof fn lemma_keep_by_push<A>(s: Seq<A>, pred: spec_fn(A) -> bool, x: A)
    ensures
        keep_by(s.push(x), pred) == (if pred(x) {
            keep_by(s, pred).push(x)
        } else {
            keep_by(s, pred)
        }),
{
    assert(s.push(x).drop_last() =~= s);
}

} // verus!
