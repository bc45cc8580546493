//! Where the items that a filter keeps come to stand.

use vstd::prelude::*;

verus! {

/// The number of items before index `i` that the filter keeps: the place at
/// which the item at `i` stands among the kept ones, if it is kept.
pub open spec fn place<A>(items: Seq<A>, keep: spec_fn(A) -> bool, i: int) -> int {
    items.take(i).filter(keep).len() as int
}

/// What is kept of the first items is the start of what is kept of them all.
pub proof fn lemma_kept_prefix<A>(items: Seq<A>, keep: spec_fn(A) -> bool, i: int)
    requires
        0 <= i <= items.len(),
    ensures
        items.take(i).filter(keep) =~= items.filter(keep).take(place(items, keep, i)),
        place(items, keep, i) <= items.filter(keep).len(),
    decreases items.len(),
{
    reveal(Seq::filter);
    if i == items.len() {
        assert(items.take(i) =~= items);
    } else {
        let shorter = items.drop_last();
        assert(shorter.take(i) =~= items.take(i));
        lemma_kept_prefix(shorter, keep, i);
    }
}

/// A kept item stands among the kept ones at its place, and items keep
/// their order: of two kept items, the earlier one has the earlier place.
pub proof fn lemma_kept_place<A>(items: Seq<A>, keep: spec_fn(A) -> bool, i: int)
    requires
        0 <= i < items.len(),
        keep(items[i]),
    ensures
        0 <= place(items, keep, i) < items.filter(keep).len(),
        items.filter(keep)[place(items, keep, i)] == items[i],
        forall|j: int|
            i < j <= items.len() ==> place(items, keep, i) < #[trigger] place(items, keep, j),
{
    reveal(Seq::filter);
    let upto = items.take(i + 1);
    assert(upto.drop_last() =~= items.take(i));
    lemma_kept_prefix(items, keep, i + 1);
    assert(items.filter(keep).take(place(items, keep, i + 1))[place(items, keep, i)] == items[i]);
    assert forall|j: int| i < j <= items.len() implies place(items, keep, i) < #[trigger] place(
        items,
        keep,
        j,
    ) by {
        lemma_kept_prefix(items.take(j), keep, i + 1);
        assert(items.take(j).take(i + 1) =~= items.take(i + 1));
    }
}

} // verus!
