//! Stable sorting by a relation that says which of two values comes first.
use vstd::prelude::*;

verus! {

/// Values that are ordered by their views.
pub trait Ranked: View + Sized {
    /// Whether a value comes strictly before another.
    spec fn before(a: Self::V, b: Self::V) -> bool;

    /// Whether this value comes strictly before the other.
    fn ranks_before(&self, other: &Self) -> (res: bool)
        ensures
            res == Self::before(self@, other@),
    ;
}

/// The views of a list.
pub open spec fn list_views<T: View>(list: Seq<T>) -> Seq<T::V> {
    list.map_values(|item: T| item@)
}

/// A value inserted in a sorted list, behind all values that it does not come before.
pub open spec fn inserted<V>(list: Seq<V>, item: V, before: spec_fn(V, V) -> bool) -> Seq<V>
    decreases list.len(),
{
    if list.len() > 0 && before(item, list.last()) {
        inserted(list.drop_last(), item, before).push(list.last())
    } else {
        list.push(item)
    }
}

/// A list in its order; values of which none comes before the other stay as they were.
pub open spec fn stable_sorted<V>(list: Seq<V>, before: spec_fn(V, V) -> bool) -> Seq<V>
    decreases list.len(),
{
    if list.len() == 0 {
        list
    } else {
        inserted(stable_sorted(list.drop_last(), before), list.last(), before)
    }
}

/// Whether a list is in its order.
pub open spec fn is_sorted<V>(list: Seq<V>, before: spec_fn(V, V) -> bool) -> bool {
    forall|i: int, j: int| 0 <= i < j < list.len() ==> !before(#[trigger] list[j], #[trigger] list[i])
}

/// Whether a relation can order values: no value comes before one that comes before it, and
/// coming no earlier than another is transitive.
pub open spec fn is_order<V>(before: spec_fn(V, V) -> bool) -> bool {
    &&& forall|a: V, b: V| #[trigger] before(a, b) ==> !before(b, a)
    &&& forall|a: V, b: V, c: V|
        !#[trigger] before(b, a) && !#[trigger] before(c, b) ==> !before(c, a)
}

/// Inserting adds the value and nothing else.
proof fn lemma_inserted_contents<V>(list: Seq<V>, item: V, before: spec_fn(V, V) -> bool)
    ensures
        inserted(list, item, before).to_multiset() == list.to_multiset().insert(item),
        inserted(list, item, before).len() == list.len() + 1,
    decreases list.len(),
{
    broadcast use vstd::seq_lib::group_to_multiset_ensures;

    if list.len() > 0 && before(item, list.last()) {
        lemma_inserted_contents(list.drop_last(), item, before);
        let rest = inserted(list.drop_last(), item, before);
        assert(list =~= list.drop_last().push(list.last()));
        assert(rest.push(list.last()).to_multiset() =~= list.to_multiset().insert(item));
    }
}

/// Sorting changes the order of a list and nothing else.
pub proof fn law_sorted_is_permutation<V>(list: Seq<V>, before: spec_fn(V, V) -> bool)
    ensures
        stable_sorted(list, before).to_multiset() == list.to_multiset(),
        stable_sorted(list, before).len() == list.len(),
    decreases list.len(),
{
    broadcast use vstd::seq_lib::group_to_multiset_ensures;

    if list.len() > 0 {
        law_sorted_is_permutation(list.drop_last(), before);
        lemma_inserted_contents(stable_sorted(list.drop_last(), before), list.last(), before);
        assert(list =~= list.drop_last().push(list.last()));
    }
}

/// Inserting keeps a list in its order.
proof fn lemma_inserted_sorted<V>(list: Seq<V>, item: V, before: spec_fn(V, V) -> bool)
    requires
        is_order(before),
        is_sorted(list, before),
    ensures
        is_sorted(inserted(list, item, before), before),
        forall|k: int|
            0 <= k < inserted(list, item, before).len() ==> #[trigger] inserted(
                list,
                item,
                before,
            )[k] == item || list.contains(inserted(list, item, before)[k]),
    decreases list.len(),
{
    let res = inserted(list, item, before);
    if list.len() > 0 && before(item, list.last()) {
        let shorter = list.drop_last();
        assert(is_sorted(shorter, before));
        lemma_inserted_sorted(shorter, item, before);
        let rest = inserted(shorter, item, before);
        assert forall|k: int| 0 <= k < res.len() implies #[trigger] res[k] == item || list.contains(
            res[k],
        ) by {
            if k < rest.len() {
                assert(res[k] == rest[k]);
                if rest[k] != item {
                    let m = choose|m: int| 0 <= m < shorter.len() && shorter[m] == rest[k];
                    assert(list[m] == rest[k]);
                }
            } else {
                assert(list[list.len() - 1] == res[k]);
            }
        }
        assert forall|i: int, j: int| 0 <= i < j < res.len() implies !before(
            #[trigger] res[j],
            #[trigger] res[i],
        ) by {
            if j < rest.len() {
                assert(!before(rest[j], rest[i]));
            } else {
                assert(res[i] == rest[i]);
                if rest[i] != item {
                    let m = choose|m: int| 0 <= m < shorter.len() && shorter[m] == rest[i];
                    assert(!before(list[list.len() - 1], list[m]));
                }
            }
        }
    } else {
        assert forall|k: int| 0 <= k < res.len() implies #[trigger] res[k] == item || list.contains(
            res[k],
        ) by {
            if k < list.len() {
                assert(list[k] == res[k]);
            }
        }
        assert forall|i: int, j: int| 0 <= i < j < res.len() implies !before(
            #[trigger] res[j],
            #[trigger] res[i],
        ) by {
            if j < list.len() {
                assert(!before(list[j], list[i]));
            } else {
                let last = list[list.len() - 1];
                assert(!before(item, last));
                if i < list.len() - 1 {
                    assert(!before(last, list[i]));
                }
            }
        }
    }
}

/// A sorted list is in its order.
pub proof fn law_sorted_is_sorted<V>(list: Seq<V>, before: spec_fn(V, V) -> bool)
    requires
        is_order(before),
    ensures
        is_sorted(stable_sorted(list, before), before),
    decreases list.len(),
{
    if list.len() > 0 {
        law_sorted_is_sorted(list.drop_last(), before);
        lemma_inserted_sorted(stable_sorted(list.drop_last(), before), list.last(), before);
    }
}

/// Inserts a value in a sorted list.
pub fn insert_ranked<T: Ranked>(list: &mut Vec<T>, item: T)
    ensures
        list_views(final(list)@) == inserted(
            list_views(old(list)@),
            item@,
            |a: T::V, b: T::V| T::before(a, b),
        ),
{
    let ghost before = |a: T::V, b: T::V| T::before(a, b);
    let ghost all = list_views(list@);
    let mut at: usize = list.len();
    let ghost mut tail: Seq<T::V> = Seq::empty();
    proof {
        assert(all.take(at as int) =~= all);
        assert(inserted(all, item@, before) =~= inserted(all, item@, before) + tail);
    }
    while at > 0 && item.ranks_before(&list[at - 1])
        invariant
            at <= list@.len(),
            list@ == old(list)@,
            all == list_views(list@),
            before == (|a: T::V, b: T::V| T::before(a, b)),
            tail =~= all.skip(at as int),
            inserted(all, item@, before) =~= inserted(all.take(at as int), item@, before) + tail,
        decreases at,
    {
        proof {
            let now = all.take(at as int);
            assert(now.last() == list@[at - 1]@);
            assert(now.drop_last() =~= all.take(at - 1));
            let rest = inserted(all.take(at - 1), item@, before);
            assert(inserted(now, item@, before) == rest.push(now.last()));
            assert(rest.push(now.last()) + tail =~= rest + all.skip(at - 1));
            tail = all.skip(at - 1);
        }
        at -= 1;
    }
    proof {
        let now = all.take(at as int);
        if at > 0 {
            assert(now.last() == list@[at - 1]@);
        }
        assert(inserted(now, item@, before) == now.push(item@));
    }
    let ghost shown = item@;
    list.insert(at, item);
    proof {
        assert(list_views(list@) =~= all.take(at as int).push(shown) + all.skip(at as int));
    }
}

/// A list in its order.
pub fn sort_ranked<T: Ranked>(list: Vec<T>) -> (res: Vec<T>)
    ensures
        list_views(res@) == stable_sorted(
            list_views(list@),
            |a: T::V, b: T::V| T::before(a, b),
        ),
{
    let ghost before = |a: T::V, b: T::V| T::before(a, b);
    let ghost all = list_views(list@);
    let mut rest = list;
    let mut reversed: Vec<T> = Vec::new();
    while rest.len() > 0
        invariant
            rest@.len() + reversed@.len() == list@.len(),
            rest@ =~= list@.take(rest@.len() as int),
            forall|k: int|
                0 <= k < reversed@.len() ==> #[trigger] reversed@[k] == list@[list@.len() - 1 - k],
        decreases rest@.len(),
    {
        let item = rest.pop().unwrap();
        reversed.push(item);
    }
    let mut res: Vec<T> = Vec::new();
    proof {
        assert(list_views(res@) =~= Seq::empty());
        assert(all.take(0) =~= Seq::empty());
    }
    while reversed.len() > 0
        invariant
            reversed@.len() <= list@.len(),
            forall|k: int|
                0 <= k < reversed@.len() ==> #[trigger] reversed@[k] == list@[list@.len() - 1 - k],
            before == (|a: T::V, b: T::V| T::before(a, b)),
            all == list_views(list@),
            list_views(res@) == stable_sorted(
                all.take(list@.len() - reversed@.len()),
                before,
            ),
        decreases reversed@.len(),
    {
        let ghost done = list@.len() - reversed@.len();
        let item = reversed.pop().unwrap();
        proof {
            let next = all.take(done + 1);
            assert(next.drop_last() =~= all.take(done));
            assert(next.last() == item@);
        }
        insert_ranked(&mut res, item);
    }
    proof {
        assert(all.take(list@.len() as int) =~= all);
    }
    res
}

/// A value that comes before none of the others goes behind them all: so values of which none comes
/// before the other stay in the order in which they were.
pub proof fn law_later_values_stay_behind<V>(
    list: Seq<V>,
    item: V,
    before: spec_fn(V, V) -> bool,
)
    requires
        forall|i: int| 0 <= i < list.len() ==> !before(item, #[trigger] list[i]),
    ensures
        stable_sorted(list.push(item), before) == stable_sorted(list, before).push(item),
{
    let sorted = stable_sorted(list, before);
    assert(list.push(item).drop_last() =~= list);
    law_sorted_is_permutation(list, before);
    if sorted.len() > 0 {
        assert(sorted.contains(sorted.last())) by {
            assert(sorted[sorted.len() - 1] == sorted.last());
        }
        vstd::seq_lib::to_multiset_contains(sorted, sorted.last());
        vstd::seq_lib::to_multiset_contains(list, sorted.last());
        assert(list.contains(sorted.last()));
        let i = choose|i: int| 0 <= i < list.len() && list[i] == sorted.last();
        assert(!before(item, list[i]));
    }
}

} // verus!
