//! Sequences of views, and filtering by position.

use vstd::prelude::*;

verus! {

/// What the elements of a sequence stand for.
pub open spec fn views<T: View>(items: Seq<T>) -> Seq<T::V> {
    items.map_values(|item: T| item@)
}

/// What an optional value stands for.
pub open spec fn opt_view<T: View>(item: Option<T>) -> Option<T::V> {
    match item {
        Some(item) => Some(item@),
        None => None,
    }
}

/// Taking one more element in front of a filter adds that element, if at all.
pub proof fn filter_takes_one_more<T>(items: Seq<T>, n: int, keep: spec_fn(T) -> bool)
    requires
        0 <= n < items.len(),
    ensures
        items.take(n + 1).filter(keep) == if keep(items[n]) {
            items.take(n).filter(keep).push(items[n])
        } else {
            items.take(n).filter(keep)
        },
{
    reveal(Seq::filter);
    assert(items.take(n + 1).drop_last() =~= items.take(n));
}

/// Every element of a filtered sequence is one of the sequence that passes.
pub proof fn filtered_items_pass<T>(items: Seq<T>, keep: spec_fn(T) -> bool)
    ensures
        forall|item: T|
            #[trigger] items.filter(keep).contains(item) <==> items.contains(item) && keep(item),
    decreases items.len(),
{
    reveal(Seq::filter);
    if items.len() > 0 {
        filtered_items_pass(items.drop_last(), keep);
        let rest = items.drop_last().filter(keep);
        assert forall|item: T| #[trigger]
            items.filter(keep).contains(item) implies items.contains(item) && keep(item) by {
            let i = choose|i: int|
                0 <= i < items.filter(keep).len() && items.filter(keep)[i] == item;
            if i < rest.len() {
                assert(rest[i] == item);
                assert(rest.contains(item));
                let j = choose|j: int|
                    0 <= j < items.drop_last().len() && items.drop_last()[j] == item;
                assert(items[j] == item);
            } else {
                assert(items[items.len() - 1] == item);
            }
        }
        assert forall|item: T| items.contains(item) && keep(item) implies #[trigger] items.filter(
            keep,
        ).contains(item) by {
            let j = choose|j: int| 0 <= j < items.len() && items[j] == item;
            if j < items.len() - 1 {
                assert(items.drop_last()[j] == item);
                assert(rest.contains(item));
                let i = choose|i: int| 0 <= i < rest.len() && rest[i] == item;
                assert(items.filter(keep)[i] == item);
            } else {
                assert(items.filter(keep)[rest.len() as int] == item);
            }
        }
    }
}

/// A filter leaves a sequence alone whose elements all pass.
pub proof fn filter_keeps_what_passes<T>(items: Seq<T>, keep: spec_fn(T) -> bool)
    requires
        forall|i: int| 0 <= i < items.len() ==> keep(#[trigger] items[i]),
    ensures
        items.filter(keep) == items,
    decreases items.len(),
{
    reveal(Seq::filter);
    if items.len() > 0 {
        filter_keeps_what_passes(items.drop_last(), keep);
        assert(items.drop_last().push(items.last()) =~= items);
    }
}

} // verus!
