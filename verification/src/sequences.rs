//! Facts about filtered and concatenated sequences.

use vstd::prelude::*;

verus! {

/// The filter of a sequence with one element pushed.
pub proof fn lemma_filter_push<A>(s: Seq<A>, pred: spec_fn(A) -> bool, last: A)
    ensures
        s.push(last).filter(pred) == if pred(last) {
            s.filter(pred).push(last)
        } else {
            s.filter(pred)
        },
{
    reveal(Seq::filter);
    assert(s.push(last).drop_last() == s);
}

/// The filter of two elements.
pub proof fn lemma_filter_two<A>(a: A, b: A, pred: spec_fn(A) -> bool)
    ensures
        seq![a, b].filter(pred) == if pred(a) && pred(b) {
            seq![a, b]
        } else if pred(a) {
            seq![a]
        } else if pred(b) {
            seq![b]
        } else {
            Seq::empty()
        },
{
    reveal(Seq::filter);
    assert(seq![a, b] == Seq::<A>::empty().push(a).push(b));
    lemma_filter_push(Seq::<A>::empty().push(a), pred, b);
    lemma_filter_push(Seq::<A>::empty(), pred, a);
    assert(Seq::<A>::empty().filter(pred) =~= Seq::<A>::empty());
    assert(Seq::<A>::empty().push(a) =~= seq![a]);
    assert(Seq::<A>::empty().push(b) =~= seq![b]);
}

/// A filter that accepts every element keeps the sequence.
pub proof fn lemma_filter_all<A>(s: Seq<A>, pred: spec_fn(A) -> bool)
    requires
        forall|i: int| 0 <= i < s.len() ==> pred(#[trigger] s[i]),
    ensures
        s.filter(pred) == s,
    decreases s.len(),
{
    reveal(Seq::filter);
    if s.len() > 0 {
        lemma_filter_all(s.drop_last(), pred);
        assert(s.drop_last().push(s.last()) == s);
    }
}

/// A filter that accepts no element leaves nothing.
pub proof fn lemma_filter_none<A>(s: Seq<A>, pred: spec_fn(A) -> bool)
    requires
        forall|i: int| 0 <= i < s.len() ==> !pred(#[trigger] s[i]),
    ensures
        s.filter(pred) == Seq::<A>::empty(),
    decreases s.len(),
{
    reveal(Seq::filter);
    if s.len() > 0 {
        lemma_filter_none(s.drop_last(), pred);
    }
}

/// Sequences put end to end: all but the last, then the last.
pub proof fn lemma_flatten_last<A>(groups: Seq<Seq<A>>)
    requires
        groups.len() > 0,
    ensures
        groups.flatten() == groups.drop_last().flatten() + groups.last(),
{
    groups.lemma_flatten_and_flatten_alt_are_equivalent();
    groups.drop_last().lemma_flatten_and_flatten_alt_are_equivalent();
}

/// Sequences put end to end hold every element of each.
pub proof fn lemma_flatten_contains<A>(groups: Seq<Seq<A>>, k: int, i: int)
    requires
        0 <= k < groups.len(),
        0 <= i < groups[k].len(),
    ensures
        groups.flatten().contains(groups[k][i]),
    decreases groups.len(),
{
    lemma_flatten_last(groups);
    let before = groups.drop_last().flatten();
    if k == groups.len() - 1 {
        assert(groups.flatten()[before.len() + i] == groups[k][i]);
    } else {
        lemma_flatten_contains(groups.drop_last(), k, i);
        let at = choose|at: int| 0 <= at < before.len() && before[at] == groups[k][i];
        assert(groups.flatten()[at] == groups[k][i]);
    }
}

/// Where a predicate accepts no element of any sequence, the filter of the
/// sequences put end to end is empty.
pub proof fn lemma_filter_flatten_none<A>(groups: Seq<Seq<A>>, pred: spec_fn(A) -> bool)
    requires
        forall|k: int, i: int|
            0 <= k < groups.len() && 0 <= i < groups[k].len() ==> !pred(#[trigger] groups[k][i]),
    ensures
        groups.flatten().filter(pred) == Seq::<A>::empty(),
    decreases groups.len(),
{
    reveal(Seq::filter);
    if groups.len() > 0 {
        lemma_flatten_last(groups);
        let rest = groups.drop_last();
        assert forall|k: int, i: int| 0 <= k < rest.len() && 0 <= i < rest[k].len() implies !pred(
            #[trigger] rest[k][i],
        ) by {
            assert(rest[k][i] == groups[k][i]);
        }
        lemma_filter_flatten_none(rest, pred);
        lemma_filter_none(groups.last(), pred);
        Seq::filter_distributes_over_add(rest.flatten(), groups.last(), pred);
    }
}

/// Where one group holds exactly the elements that a predicate accepts, the
/// filter of the groups put end to end is that group.
pub proof fn lemma_filter_flatten_one<A>(groups: Seq<Seq<A>>, pred: spec_fn(A) -> bool, k: int)
    requires
        0 <= k < groups.len(),
        forall|i: int| 0 <= i < groups[k].len() ==> pred(#[trigger] groups[k][i]),
        forall|j: int, i: int|
            0 <= j < groups.len() && j != k && 0 <= i < groups[j].len() ==> !pred(
                #[trigger] groups[j][i],
            ),
    ensures
        groups.flatten().filter(pred) == groups[k],
    decreases groups.len(),
{
    lemma_flatten_last(groups);
    let rest = groups.drop_last();
    Seq::filter_distributes_over_add(rest.flatten(), groups.last(), pred);
    if k == groups.len() - 1 {
        assert forall|j: int, i: int| 0 <= j < rest.len() && 0 <= i < rest[j].len() implies !pred(
            #[trigger] rest[j][i],
        ) by {
            assert(rest[j][i] == groups[j][i]);
        }
        lemma_filter_flatten_none(rest, pred);
        lemma_filter_all(groups.last(), pred);
    } else {
        assert forall|j: int, i: int|
            0 <= j < rest.len() && j != k && 0 <= i < rest[j].len() implies !pred(
            #[trigger] rest[j][i],
        ) by {
            assert(rest[j][i] == groups[j][i]);
        }
        assert(rest[k] == groups[k]);
        lemma_filter_flatten_one(rest, pred, k);
        lemma_filter_none(groups.last(), pred);
    }
}

/// The filter of one element more: what the filter had, and the element
/// where the predicate accepts it.
pub proof fn lemma_filter_step<A>(s: Seq<A>, pred: spec_fn(A) -> bool, i: int)
    requires
        0 <= i < s.len(),
    ensures
        s.take(i + 1).filter(pred) == if pred(s[i]) {
            s.take(i).filter(pred).push(s[i])
        } else {
            s.take(i).filter(pred)
        },
{
    reveal(Seq::filter);
    assert(s.take(i + 1).drop_last() == s.take(i));
}

} // verus!
