//! Stable sorting by texts.

use vstd::prelude::*;

use crate::seqs::views;
use crate::text::{text_before, text_order_carries_on, texts_are_ordered};

verus! {

/// What items are sorted by: those marked `false` first, and then by texts, the
/// first one first.
pub type SortKey = (bool, Seq<Seq<char>>);

/// Whether one list of texts sorts before another: by the first text in which
/// they differ, and a list before every longer one that it begins.
pub open spec fn texts_before(left: Seq<Seq<char>>, right: Seq<Seq<char>>) -> bool
    decreases left.len(),
{
    if right.len() == 0 {
        false
    } else if left.len() == 0 {
        true
    } else if left[0] != right[0] {
        text_before(left[0], right[0])
    } else {
        texts_before(left.skip(1), right.skip(1))
    }
}

/// Whether one key sorts before another.
pub open spec fn key_before(left: SortKey, right: SortKey) -> bool {
    if left.0 != right.0 {
        right.0
    } else {
        texts_before(left.1, right.1)
    }
}

proof fn text_lists_are_ordered(left: Seq<Seq<char>>, right: Seq<Seq<char>>)
    ensures
        !(texts_before(left, right) && texts_before(right, left)),
        left == right <==> !texts_before(left, right) && !texts_before(right, left),
    decreases left.len(),
{
    if left.len() == 0 || right.len() == 0 {
        if left.len() == 0 && right.len() == 0 {
            assert(left =~= right);
        }
    } else if left[0] == right[0] {
        text_lists_are_ordered(left.skip(1), right.skip(1));
        if left.skip(1) == right.skip(1) {
            assert(left =~= seq![left[0]] + left.skip(1));
            assert(right =~= seq![right[0]] + right.skip(1));
        }
    } else {
        texts_are_ordered(left[0], right[0]);
    }
}

proof fn text_list_order_carries_on(a: Seq<Seq<char>>, b: Seq<Seq<char>>, c: Seq<Seq<char>>)
    requires
        texts_before(a, b),
        texts_before(b, c),
    ensures
        texts_before(a, c),
    decreases a.len(),
{
    if a.len() > 0 {
        if a[0] == b[0] && b[0] == c[0] {
            text_list_order_carries_on(a.skip(1), b.skip(1), c.skip(1));
        } else if a[0] != b[0] && b[0] != c[0] {
            text_order_carries_on(a[0], b[0], c[0]);
            texts_are_ordered(a[0], c[0]);
        }
    }
}

/// No key sorts before itself, and of two different keys one sorts before the
/// other.
pub proof fn keys_are_ordered(left: SortKey, right: SortKey)
    ensures
        !(key_before(left, right) && key_before(right, left)),
        left == right <==> !key_before(left, right) && !key_before(right, left),
{
    text_lists_are_ordered(left.1, right.1);
}

/// What does not sort behind a key does not sort behind anything that does not
/// sort before that key.
pub proof fn key_order_carries_on(a: SortKey, b: SortKey, c: SortKey)
    requires
        !key_before(b, a),
        !key_before(c, b),
    ensures
        !key_before(c, a),
{
    keys_are_ordered(a, b);
    if key_before(c, a) && a != b {
        if c.0 == a.0 && a.0 == b.0 {
            text_list_order_carries_on(c.1, a.1, b.1);
        }
    }
}

/// Where an item goes in a sorted list: behind everything that does not sort
/// behind it.
pub open spec fn place<V>(sorted: Seq<V>, item: V, key: spec_fn(V) -> SortKey) -> int
    decreases sorted.len(),
{
    if sorted.len() > 0 && key_before(key(item), key(sorted.last())) {
        place(sorted.drop_last(), item, key)
    } else {
        sorted.len() as int
    }
}

/// The list in the order of its keys, with items of one key in the order in
/// which they came.
pub open spec fn arranged<V>(items: Seq<V>, key: spec_fn(V) -> SortKey) -> Seq<V>
    decreases items.len(),
{
    if items.len() == 0 {
        items
    } else {
        let before = arranged(items.drop_last(), key);
        before.insert(place(before, items.last(), key), items.last())
    }
}

/// Items that can be sorted.
pub trait Sortable: View {
    /// What they are sorted by.
    spec fn sort_key() -> spec_fn(Self::V) -> SortKey;

    /// Whether this item sorts before the other.
    fn comes_before(&self, other: &Self) -> (before: bool)
        ensures
            before == key_before(Self::sort_key()(self@), Self::sort_key()(other@)),
    ;
}

/// Sorts a list by the keys of its items, keeping the order of items that share
/// a key.
pub fn arrange<T: Sortable>(items: Vec<T>) -> (sorted: Vec<T>)
    ensures
        views(sorted@) == arranged(views(items@), T::sort_key()),
{
    let ghost all = views(items@);
    let ghost key = T::sort_key();
    let mut items = items;
    let mut sorted: Vec<T> = Vec::new();
    let ghost mut done: int = 0;
    proof {
        assert(views(sorted@) =~= all.take(0));
        assert(views(items@) =~= all.skip(0));
    }
    while items.len() > 0
        invariant
            0 <= done <= all.len(),
            key == T::sort_key(),
            views(items@) == all.skip(done),
            views(sorted@) == arranged(all.take(done), key),
        decreases items@.len(),
    {
        let ghost before = views(sorted@);
        let ghost waiting = views(items@);
        assert(waiting.len() == items@.len());
        assert(waiting[0] == all[done]);
        let item = items.remove(0);
        assert(item@ == waiting[0]);
        assert(views(items@) =~= waiting.remove(0));
        assert(views(items@) =~= all.skip(done + 1));
        let mut n: usize = sorted.len();
        assert(before.take(n as int) =~= before);
        while n > 0 && item.comes_before(&sorted[n - 1])
            invariant
                n <= sorted@.len(),
                key == T::sort_key(),
                before == views(sorted@),
                place(before, item@, key) == place(before.take(n as int), item@, key),
            ensures
                n <= sorted@.len(),
                place(before, item@, key) == n,
            decreases n,
        {
            assert(before.take(n as int).last() == sorted@[n - 1]@);
            assert(before.take(n as int).drop_last() =~= before.take(n - 1));
            n = n - 1;
        }
        sorted.insert(n, item);
        proof {
            assert(views(sorted@) =~= before.insert(n as int, all[done]));
            assert(all.take(done + 1).drop_last() =~= all.take(done));
            done = done + 1;
        }
    }
    assert(all.take(done) =~= all);
    sorted
}

/// Every item sorts no later than those behind it.
pub open spec fn in_order<V>(items: Seq<V>, key: spec_fn(V) -> SortKey) -> bool {
    forall|i: int, j: int|
        0 <= i < j < items.len() ==> !key_before(key(#[trigger] items[j]), key(#[trigger] items[i]))
}

proof fn place_splits_the_list<V>(sorted: Seq<V>, item: V, key: spec_fn(V) -> SortKey)
    requires
        in_order(sorted, key),
    ensures
        0 <= place(sorted, item, key) <= sorted.len(),
        forall|i: int|
            0 <= i < place(sorted, item, key) ==> !key_before(key(item), key(#[trigger] sorted[i])),
        forall|i: int|
            place(sorted, item, key) <= i < sorted.len() ==> key_before(
                key(item),
                key(#[trigger] sorted[i]),
            ),
    decreases sorted.len(),
{
    if sorted.len() > 0 {
        let start = sorted.drop_last();
        assert forall|i: int, j: int| 0 <= i < j < start.len() implies !key_before(
            key(#[trigger] start[j]),
            key(#[trigger] start[i]),
        ) by {
            assert(start[i] == sorted[i] && start[j] == sorted[j]);
        }
        place_splits_the_list(start, item, key);
        let n = place(sorted, item, key);
        assert forall|i: int| 0 <= i < n implies !key_before(key(item), key(#[trigger] sorted[i])) by {
            if key_before(key(item), key(sorted.last())) {
                assert(start[i] == sorted[i]);
            } else if i < sorted.len() - 1 {
                key_order_carries_on(key(sorted[i]), key(sorted.last()), key(item));
            }
        }
        assert forall|i: int| n <= i < sorted.len() implies key_before(
            key(item),
            key(#[trigger] sorted[i]),
        ) by {
            if i < sorted.len() - 1 {
                assert(start[i] == sorted[i]);
            }
        }
    }
}

/// A sorted list is in order.
pub proof fn sorting_puts_in_order<V>(items: Seq<V>, key: spec_fn(V) -> SortKey)
    ensures
        in_order(arranged(items, key), key),
        arranged(items, key).len() == items.len(),
    decreases items.len(),
{
    if items.len() > 0 {
        sorting_puts_in_order(items.drop_last(), key);
        let before = arranged(items.drop_last(), key);
        let item = items.last();
        place_splits_the_list(before, item, key);
        let n = place(before, item, key);
        let after = before.insert(n, item);
        assert forall|i: int, j: int| 0 <= i < j < after.len() implies !key_before(
            key(#[trigger] after[j]),
            key(#[trigger] after[i]),
        ) by {
            if i < n && j < n {
                assert(after[i] == before[i] && after[j] == before[j]);
            } else if i < n && j == n {
                assert(after[i] == before[i]);
            } else if i < n {
                assert(after[i] == before[i] && after[j] == before[j - 1]);
            } else if i == n {
                assert(after[j] == before[j - 1]);
                keys_are_ordered(key(item), key(before[j - 1]));
            } else {
                assert(after[i] == before[i - 1] && after[j] == before[j - 1]);
            }
        }
    }
}

/// Items with this key.
pub open spec fn keyed<V>(key: spec_fn(V) -> SortKey, wanted: SortKey) -> spec_fn(V) -> bool {
    |item: V| key(item) == wanted
}

/// Sorting keeps every item, and items that share a key keep their order.
pub proof fn sorting_is_stable<V>(items: Seq<V>, key: spec_fn(V) -> SortKey, wanted: SortKey)
    ensures
        arranged(items, key).filter(keyed(key, wanted)) == items.filter(keyed(key, wanted)),
    decreases items.len(),
{
    let keep = keyed(key, wanted);
    if items.len() > 0 {
        sorting_is_stable(items.drop_last(), key, wanted);
        sorting_puts_in_order(items.drop_last(), key);
        let before = arranged(items.drop_last(), key);
        let item = items.last();
        place_splits_the_list(before, item, key);
        let n = place(before, item, key);
        let front = before.take(n);
        let back = before.skip(n);
        assert(before =~= front + back);
        assert(before.insert(n, item) =~= (front + seq![item]) + back);
        Seq::filter_distributes_over_add(front, back, keep);
        Seq::filter_distributes_over_add(front + seq![item], back, keep);
        Seq::filter_distributes_over_add(front, seq![item], keep);
        reveal_with_fuel(Seq::filter, 2);
        assert(seq![item].drop_last() =~= Seq::<V>::empty());
        if keep(item) {
            assert(back.filter(keep) =~= Seq::<V>::empty()) by {
                crate::seqs::filtered_items_pass(back, keep);
                if back.filter(keep).len() > 0 {
                    let other = back.filter(keep)[0];
                    assert(back.filter(keep).contains(other));
                    let i = choose|i: int| 0 <= i < back.len() && back[i] == other;
                    assert(before[n + i] == other);
                    keys_are_ordered(key(item), key(other));
                }
            }
            assert(before.insert(n, item).filter(keep) =~= before.filter(keep).push(item));
        } else {
            assert(before.insert(n, item).filter(keep) =~= before.filter(keep));
        }
    }
}

/// Sorting neither adds nor drops items.
pub proof fn sorting_keeps_the_items<V>(items: Seq<V>, key: spec_fn(V) -> SortKey)
    ensures
        arranged(items, key).to_multiset() == items.to_multiset(),
    decreases items.len(),
{
    broadcast use vstd::seq_lib::group_to_multiset_ensures;

    if items.len() > 0 {
        sorting_keeps_the_items(items.drop_last(), key);
        sorting_puts_in_order(items.drop_last(), key);
        let before = arranged(items.drop_last(), key);
        let item = items.last();
        place_splits_the_list(before, item, key);
        let n = place(before, item, key);
        assert(before.insert(n, item).to_multiset() =~= before.to_multiset().insert(item));
        assert(items =~= items.drop_last().push(item));
    }
}

/// Different items of the list have different keys.
pub open spec fn told_apart<V>(items: Seq<V>, key: spec_fn(V) -> SortKey) -> bool {
    forall|a: V, b: V|
        #[trigger] items.contains(a) && #[trigger] items.contains(b) && key(a) == key(b) ==> a == b
}

proof fn ordered_lists_agree<V>(left: Seq<V>, right: Seq<V>, key: spec_fn(V) -> SortKey)
    requires
        in_order(left, key),
        in_order(right, key),
        left.to_multiset() == right.to_multiset(),
        told_apart(left, key),
    ensures
        left == right,
    decreases left.len(),
{
    broadcast use vstd::seq_lib::group_to_multiset_ensures;

    assert(left.len() == left.to_multiset().len());
    assert(right.len() == right.to_multiset().len());
    if left.len() == 0 {
        assert(left =~= right);
    } else {
        let a = left.last();
        let b = right.last();
        assert(left.contains(a)) by {
            assert(left[left.len() - 1] == a);
        }
        assert(right.contains(b)) by {
            assert(right[right.len() - 1] == b);
        }
        assert(left.to_multiset().count(b) > 0);
        assert(right.to_multiset().count(a) > 0);
        assert(left.contains(b));
        assert(right.contains(a));
        let i = choose|i: int| 0 <= i < left.len() && left[i] == b;
        let j = choose|j: int| 0 <= j < right.len() && right[j] == a;
        assert(!key_before(key(a), key(b))) by {
            if i < left.len() - 1 {
                assert(!key_before(key(left[left.len() - 1]), key(left[i])));
            } else {
                keys_are_ordered(key(a), key(b));
            }
        }
        assert(!key_before(key(b), key(a))) by {
            if j < right.len() - 1 {
                assert(!key_before(key(right[right.len() - 1]), key(right[j])));
            } else {
                keys_are_ordered(key(a), key(b));
            }
        }
        keys_are_ordered(key(a), key(b));
        assert(a == b);
        let l = left.drop_last();
        let r = right.drop_last();
        assert(left =~= l.push(a));
        assert(right =~= r.push(b));
        assert(l.to_multiset() =~= left.to_multiset().remove(a));
        assert(r.to_multiset() =~= right.to_multiset().remove(a));
        assert(in_order(l, key)) by {
            assert forall|p: int, q: int| 0 <= p < q < l.len() implies !key_before(
                key(#[trigger] l[q]),
                key(#[trigger] l[p]),
            ) by {
                assert(l[p] == left[p] && l[q] == left[q]);
            }
        }
        assert(in_order(r, key)) by {
            assert forall|p: int, q: int| 0 <= p < q < r.len() implies !key_before(
                key(#[trigger] r[q]),
                key(#[trigger] r[p]),
            ) by {
                assert(r[p] == right[p] && r[q] == right[q]);
            }
        }
        assert(told_apart(l, key)) by {
            assert forall|x: V, y: V| #[trigger]
                l.contains(x) && #[trigger] l.contains(y) && key(x) == key(y) implies x == y by {
                let p = choose|p: int| 0 <= p < l.len() && l[p] == x;
                let q = choose|q: int| 0 <= q < l.len() && l[q] == y;
                assert(left[p] == x && left[q] == y);
                assert(left.contains(x) && left.contains(y));
            }
        }
        ordered_lists_agree(l, r, key);
    }
}

/// Where keys tell items apart, the sorted list does not depend on the order in
/// which the items came.
pub proof fn sorting_forgets_the_order_of_arrival<V>(
    left: Seq<V>,
    right: Seq<V>,
    key: spec_fn(V) -> SortKey,
)
    requires
        left.to_multiset() == right.to_multiset(),
        told_apart(left, key),
    ensures
        arranged(left, key) == arranged(right, key),
{
    broadcast use vstd::seq_lib::group_to_multiset_ensures;

    sorting_puts_in_order(left, key);
    sorting_puts_in_order(right, key);
    sorting_keeps_the_items(left, key);
    sorting_keeps_the_items(right, key);
    let a = arranged(left, key);
    assert(told_apart(a, key)) by {
        assert forall|x: V, y: V| #[trigger]
            a.contains(x) && #[trigger] a.contains(y) && key(x) == key(y) implies x == y by {
            assert(a.to_multiset().count(x) > 0 && a.to_multiset().count(y) > 0);
            assert(left.contains(x) && left.contains(y));
        }
    }
    ordered_lists_agree(a, arranged(right, key), key);
}

} // verus!
