//! Stable insertion order: the specification of sorting by a strict
//! "goes before" relation, where equal elements keep their order.
use vstd::prelude::*;

verus! {

/// `sorted` with `x` placed before the first element it goes before.
pub open spec fn insert_sorted<A>(x: A, sorted: Seq<A>, before: spec_fn(A, A) -> bool) -> Seq<A>
    decreases sorted.len(),
{
    if sorted.len() == 0 {
        seq![x]
    } else if before(x, sorted[0]) {
        seq![x] + sorted
    } else {
        seq![sorted[0]] + insert_sorted(x, sorted.drop_first(), before)
    }
}

/// Stable sort of `s`: each element, in order, inserted before the first
/// element it goes before.
pub open spec fn insertion_sort<A>(s: Seq<A>, before: spec_fn(A, A) -> bool) -> Seq<A>
    decreases s.len(),
{
    if s.len() == 0 {
        Seq::empty()
    } else {
        insert_sorted(s.last(), insertion_sort(s.drop_last(), before), before)
    }
}

/// The first index at or after `from` of an element that `x` goes before.
pub open spec fn first_before<A>(x: A, sorted: Seq<A>, before: spec_fn(A, A) -> bool, from: int) -> int
    decreases sorted.len() - from,
{
    if from >= sorted.len() || from < 0 {
        sorted.len() as int
    } else if before(x, sorted[from]) {
        from
    } else {
        first_before(x, sorted, before, from + 1)
    }
}

pub proof fn lemma_first_before_step<A>(x: A, sorted: Seq<A>, before: spec_fn(A, A) -> bool, from: int)
    requires
        0 <= from < sorted.len(),
        !before(x, sorted[from]),
    ensures
        first_before(x, sorted, before, from) == first_before(x, sorted, before, from + 1),
{
}

proof fn lemma_first_before_drop<A>(x: A, sorted: Seq<A>, before: spec_fn(A, A) -> bool, from: int)
    requires
        1 <= from <= sorted.len(),
    ensures
        first_before(x, sorted.drop_first(), before, from - 1) + 1 == first_before(x, sorted, before, from),
    decreases sorted.len() - from,
{
    if from < sorted.len() && !before(x, sorted[from]) {
        lemma_first_before_drop(x, sorted, before, from + 1);
    }
}

/// Inserting places `x` at `first_before`.
pub proof fn lemma_insert_sorted_at<A>(x: A, sorted: Seq<A>, before: spec_fn(A, A) -> bool)
    ensures
        0 <= first_before(x, sorted, before, 0) <= sorted.len(),
        insert_sorted(x, sorted, before) == sorted.subrange(0, first_before(x, sorted, before, 0))
            + seq![x] + sorted.subrange(first_before(x, sorted, before, 0), sorted.len() as int),
    decreases sorted.len(),
{
    if sorted.len() == 0 {
        assert(sorted.subrange(0, 0) + seq![x] + sorted.subrange(0, 0) =~= seq![x]);
    } else if before(x, sorted[0]) {
        assert(sorted.subrange(0, 0) + seq![x] + sorted.subrange(0, sorted.len() as int) =~= seq![x]
            + sorted);
    } else {
        let rest = sorted.drop_first();
        lemma_insert_sorted_at(x, rest, before);
        lemma_first_before_step(x, sorted, before, 0);
        lemma_first_before_drop(x, sorted, before, 1);
        let k = first_before(x, rest, before, 0);
        assert(seq![sorted[0]] + (rest.subrange(0, k) + seq![x] + rest.subrange(k, rest.len() as int))
            =~= sorted.subrange(0, k + 1) + seq![x] + sorted.subrange(k + 1, sorted.len() as int));
    }
}

} // verus!
