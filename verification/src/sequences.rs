//! Facts about filtered sequences that the proofs of this crate share.

use vstd::prelude::*;

verus! {

/// Filtering a sequence with one more item at its end.
pub proof fn lemma_filter_push<A>(items: Seq<A>, item: A, keep: spec_fn(A) -> bool)
    ensures
        items.push(item).filter(keep) == if keep(item) {
            items.filter(keep).push(item)
        } else {
            items.filter(keep)
        },
{
    assert(items.push(item).drop_last() =~= items);
    reveal_with_fuel(Seq::filter, 2);
}

/// Filtering a sequence of which nothing is to be kept.
pub proof fn lemma_filter_nothing<A>(items: Seq<A>, keep: spec_fn(A) -> bool)
    requires
        forall|i: int| 0 <= i < items.len() ==> !keep(#[trigger] items[i]),
    ensures
        items.filter(keep) == Seq::<A>::empty(),
    decreases items.len(),
{
    reveal_with_fuel(Seq::filter, 2);
    if items.len() > 0 {
        lemma_filter_nothing(items.drop_last(), keep);
    }
}

/// Filtering a sequence by its first item and the rest.
pub proof fn lemma_filter_first<A>(items: Seq<A>, keep: spec_fn(A) -> bool)
    requires
        items.len() > 0,
    ensures
        items.filter(keep) == if keep(items[0]) {
            seq![items[0]] + items.drop_first().filter(keep)
        } else {
            items.drop_first().filter(keep)
        },
{
    let first = seq![items[0]];
    assert(items =~= first + items.drop_first());
    Seq::filter_distributes_over_add(first, items.drop_first(), keep);
    assert(first =~= Seq::<A>::empty().push(items[0]));
    lemma_filter_push(Seq::<A>::empty(), items[0], keep);
    assert(Seq::<A>::empty().filter(keep) =~= Seq::<A>::empty());
    if keep(items[0]) {
        assert(first.filter(keep) =~= first);
    } else {
        assert(first.filter(keep) + items.drop_first().filter(keep) =~= items.drop_first().filter(
            keep,
        ));
    }
}

/// Keeping the items that satisfy a condition does not change how often an
/// item that satisfies it occurs.
pub proof fn lemma_filter_keeps_count<A>(items: Seq<A>, keep: spec_fn(A) -> bool, item: A)
    requires
        keep(item),
    ensures
        items.filter(keep).to_multiset().count(item) == items.to_multiset().count(item),
    decreases items.len(),
{
    broadcast use vstd::seq_lib::group_to_multiset_ensures;

    if items.len() == 0 {
        assert(items.filter(keep) =~= items);
    } else {
        let front = items.drop_last();
        let last = items.last();
        assert(items =~= front.push(last));
        lemma_filter_push(front, last, keep);
        lemma_filter_keeps_count(front, keep, item);
    }
}

} // verus!
