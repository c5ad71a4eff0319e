//! Searching, selecting and sorting lists, as contracts speak of them.
use vstd::multiset::Multiset;
use vstd::prelude::*;

verus! {

// --------------------------------------------------------------- searching --

/// The first item that passes a test.
pub open spec fn first_match<T>(items: Seq<T>, test: spec_fn(T) -> bool) -> Option<T>
    decreases items.len(),
{
    if items.len() == 0 {
        None
    } else if test(items[0]) {
        Some(items[0])
    } else {
        first_match(items.drop_first(), test)
    }
}

/// The first match is the one that nothing before it passes the test.
pub proof fn first_match_found<T>(items: Seq<T>, test: spec_fn(T) -> bool, at: int)
    requires
        0 <= at < items.len(),
        test(items[at]),
        forall|i: int| 0 <= i < at ==> !test(#[trigger] items[i]),
    ensures
        first_match(items, test) == Some(items[at]),
    decreases at,
{
    if at > 0 {
        assert(!test(items[0]));
        let rest = items.drop_first();
        assert forall|i: int| 0 <= i < at - 1 implies !test(#[trigger] rest[i]) by {
            assert(!test(items[i + 1]));
        }
        first_match_found(rest, test, at - 1);
    }
}

/// There is no first match where nothing passes the test.
pub proof fn first_match_missing<T>(items: Seq<T>, test: spec_fn(T) -> bool)
    requires
        forall|i: int| 0 <= i < items.len() ==> !test(#[trigger] items[i]),
    ensures
        first_match(items, test) is None,
    decreases items.len(),
{
    if items.len() > 0 {
        assert(!test(items[0]));
        let rest = items.drop_first();
        assert forall|i: int| 0 <= i < rest.len() implies !test(#[trigger] rest[i]) by {
            assert(!test(items[i + 1]));
        }
        first_match_missing(rest, test);
    }
}

/// Where there is no first match, nothing passes the test.
pub proof fn first_match_none<T>(items: Seq<T>, test: spec_fn(T) -> bool)
    requires
        first_match(items, test) is None,
    ensures
        forall|i: int| 0 <= i < items.len() ==> !test(#[trigger] items[i]),
    decreases items.len(),
{
    if items.len() > 0 {
        let rest = items.drop_first();
        first_match_none(rest, test);
        assert forall|i: int| 0 <= i < items.len() implies !test(#[trigger] items[i]) by {
            if i > 0 {
                assert(!test(rest[i - 1]));
            }
        }
    }
}

/// A first match is one of the items, and it passes the test.
pub proof fn first_match_is_there<T>(items: Seq<T>, test: spec_fn(T) -> bool) -> (at: int)
    requires
        first_match(items, test) is Some,
    ensures
        0 <= at < items.len(),
        test(items[at]),
        first_match(items, test) == Some(items[at]),
    decreases items.len(),
{
    if test(items[0]) {
        0
    } else {
        first_match_is_there(items.drop_first(), test) + 1
    }
}

/// How many items pass a test.
pub open spec fn count_matches<T>(items: Seq<T>, test: spec_fn(T) -> bool) -> nat
    decreases items.len(),
{
    if items.len() == 0 {
        0
    } else {
        count_matches(items.drop_last(), test) + if test(items.last()) {
            1nat
        } else {
            0nat
        }
    }
}

/// No more items pass a test than there are items.
pub proof fn count_bounded<T>(items: Seq<T>, test: spec_fn(T) -> bool)
    ensures
        count_matches(items, test) <= items.len(),
    decreases items.len(),
{
    if items.len() > 0 {
        count_bounded(items.drop_last(), test);
    }
}

// --------------------------------------------------------------- selecting --

/// What `read` makes of the items, without those it makes nothing of.
pub open spec fn selected<T, U>(items: Seq<T>, read: spec_fn(T) -> Option<U>) -> Seq<U>
    decreases items.len(),
{
    if items.len() == 0 {
        Seq::empty()
    } else {
        let before = selected(items.drop_last(), read);
        match read(items.last()) {
            Some(value) => before.push(value),
            None => before,
        }
    }
}

/// What `read` makes of the items, up to the first that it refuses.
pub open spec fn collected<T, U>(
    items: Seq<T>,
    read: spec_fn(T) -> Result<Option<U>, Seq<char>>,
) -> Result<Seq<U>, Seq<char>>
    decreases items.len(),
{
    if items.len() == 0 {
        Ok(Seq::empty())
    } else {
        match collected(items.drop_last(), read) {
            Ok(before) => match read(items.last()) {
                Ok(Some(value)) => Ok(before.push(value)),
                Ok(None) => Ok(before),
                Err(message) => Err(message),
            },
            Err(message) => Err(message),
        }
    }
}

/// The first refusal decides, whatever comes after it.
pub proof fn collected_stops<T, U>(
    items: Seq<T>,
    read: spec_fn(T) -> Result<Option<U>, Seq<char>>,
    at: int,
)
    requires
        0 <= at <= items.len(),
        collected(items.take(at), read) is Err,
    ensures
        collected(items, read) == collected(items.take(at), read),
    decreases items.len() - at,
{
    if at < items.len() {
        assert(items.take(at + 1).drop_last() =~= items.take(at));
        collected_stops(items, read, at + 1);
    } else {
        assert(items.take(at) =~= items);
    }
}

// ----------------------------------------------------------------- sorting --

/// A sorted list once `item` stands after everything that it does not come
/// before.
pub open spec fn placed<T>(sorted: Seq<T>, item: T, comes_first: spec_fn(T, T) -> bool) -> Seq<T>
    decreases sorted.len(),
{
    if sorted.len() == 0 || !comes_first(item, sorted.last()) {
        sorted.push(item)
    } else {
        placed(sorted.drop_last(), item, comes_first).push(sorted.last())
    }
}

/// The items in order; items of the same rank stay in the order they came in.
pub open spec fn sorted_by<T>(items: Seq<T>, comes_first: spec_fn(T, T) -> bool) -> Seq<T>
    decreases items.len(),
{
    if items.len() == 0 {
        Seq::empty()
    } else {
        placed(sorted_by(items.drop_last(), comes_first), items.last(), comes_first)
    }
}

/// Whether no item of a list comes before an earlier one.
pub open spec fn is_sorted<T>(items: Seq<T>, comes_first: spec_fn(T, T) -> bool) -> bool {
    forall|i: int, j: int|
        0 <= i < j < items.len() ==> !comes_first(#[trigger] items[j], #[trigger] items[i])
}

/// Whether "comes before" is a ranking: nothing comes before itself, and two
/// items that do not come before each other have the same rank.
pub open spec fn is_ranking<T>(comes_first: spec_fn(T, T) -> bool) -> bool {
    &&& forall|a: T| !#[trigger] comes_first(a, a)
    &&& forall|a: T, b: T, c: T|
        !(#[trigger] comes_first(b, a)) && !(#[trigger] comes_first(c, b)) ==> !comes_first(c, a)
    &&& forall|a: T, b: T| #[trigger] comes_first(a, b) ==> !comes_first(b, a)
}

/// Placing an item means inserting it at its position.
pub proof fn placed_at<T>(sorted: Seq<T>, item: T, comes_first: spec_fn(T, T) -> bool, at: int)
    requires
        0 <= at <= sorted.len(),
        forall|i: int| at <= i < sorted.len() ==> comes_first(item, #[trigger] sorted[i]),
        at == 0 || !comes_first(item, sorted[at - 1]),
    ensures
        placed(sorted, item, comes_first) == sorted.insert(at, item),
    decreases sorted.len(),
{
    if at == sorted.len() {
        assert(sorted.insert(at, item) =~= sorted.push(item));
    } else {
        assert(comes_first(item, sorted[sorted.len() - 1]));
        let rest = sorted.drop_last();
        assert forall|i: int| at <= i < rest.len() implies comes_first(item, #[trigger] rest[i]) by {
            assert(comes_first(item, sorted[i]));
        }
        placed_at(rest, item, comes_first, at);
        assert(sorted.insert(at, item) =~= rest.insert(at, item).push(sorted.last()));
    }
}

proof fn placed_contents<T>(sorted: Seq<T>, item: T, comes_first: spec_fn(T, T) -> bool)
    ensures
        placed(sorted, item, comes_first).to_multiset() == sorted.to_multiset().insert(item),
        placed(sorted, item, comes_first).len() == sorted.len() + 1,
    decreases sorted.len(),
{
    broadcast use vstd::seq_lib::group_to_multiset_ensures;

    if sorted.len() == 0 || !comes_first(item, sorted.last()) {
    } else {
        let rest = sorted.drop_last();
        placed_contents(rest, item, comes_first);
        assert(sorted =~= rest.push(sorted.last()));
        assert(rest.to_multiset().insert(item).insert(sorted.last())
            =~= rest.to_multiset().insert(sorted.last()).insert(item));
    }
}

proof fn placed_sorted<T>(sorted: Seq<T>, item: T, comes_first: spec_fn(T, T) -> bool)
    requires
        is_sorted(sorted, comes_first),
        is_ranking(comes_first),
    ensures
        is_sorted(placed(sorted, item, comes_first), comes_first),
        forall|i: int|
            0 <= i < placed(sorted, item, comes_first).len() ==> (#[trigger] placed(
                sorted,
                item,
                comes_first,
            )[i] == item || sorted.contains(placed(sorted, item, comes_first)[i])),
    decreases sorted.len(),
{
    let after = placed(sorted, item, comes_first);
    if sorted.len() == 0 {
    } else if !comes_first(item, sorted.last()) {
        assert forall|i: int, j: int| 0 <= i < j < after.len() implies !comes_first(
            #[trigger] after[j],
            #[trigger] after[i],
        ) by {
            if j < sorted.len() {
                assert(!comes_first(sorted[j], sorted[i]));
            } else {
                if i < sorted.len() - 1 {
                    assert(!comes_first(sorted[sorted.len() - 1], sorted[i]));
                }
            }
        }
        assert forall|i: int| 0 <= i < after.len() implies (#[trigger] after[i] == item
            || sorted.contains(after[i])) by {
            if i < sorted.len() {
                assert(sorted[i] == after[i]);
            }
        }
    } else {
        let rest = sorted.drop_last();
        assert forall|i: int, j: int| 0 <= i < j < rest.len() implies !comes_first(
            #[trigger] rest[j],
            #[trigger] rest[i],
        ) by {
            assert(!comes_first(sorted[j], sorted[i]));
        }
        placed_sorted(rest, item, comes_first);
        let inner = placed(rest, item, comes_first);
        assert forall|i: int, j: int| 0 <= i < j < after.len() implies !comes_first(
            #[trigger] after[j],
            #[trigger] after[i],
        ) by {
            if j < inner.len() {
                assert(!comes_first(inner[j], inner[i]));
            } else {
                assert(after[i] == inner[i]);
                if inner[i] != item {
                    let k = choose|k: int| 0 <= k < rest.len() && rest[k] == inner[i];
                    assert(!comes_first(sorted[sorted.len() - 1], sorted[k]));
                }
            }
        }
        assert forall|i: int| 0 <= i < after.len() implies (#[trigger] after[i] == item
            || sorted.contains(after[i])) by {
            if i < inner.len() {
                assert(after[i] == inner[i]);
                if inner[i] != item {
                    let k = choose|k: int| 0 <= k < rest.len() && rest[k] == inner[i];
                    assert(sorted[k] == after[i]);
                }
            } else {
                assert(sorted[sorted.len() - 1] == after[i]);
            }
        }
    }
}

/// Sorting puts the items in order and neither adds nor loses one.
pub proof fn sorting_orders<T>(items: Seq<T>, comes_first: spec_fn(T, T) -> bool)
    requires
        is_ranking(comes_first),
    ensures
        is_sorted(sorted_by(items, comes_first), comes_first),
        sorted_by(items, comes_first).to_multiset() == items.to_multiset(),
        sorted_by(items, comes_first).len() == items.len(),
    decreases items.len(),
{
    broadcast use vstd::seq_lib::group_to_multiset_ensures;

    if items.len() > 0 {
        let before = sorted_by(items.drop_last(), comes_first);
        sorting_orders(items.drop_last(), comes_first);
        placed_sorted(before, items.last(), comes_first);
        placed_contents(before, items.last(), comes_first);
        assert(items =~= items.drop_last().push(items.last()));
    } else {
        assert(items.to_multiset() =~= Multiset::<T>::empty());
        assert(sorted_by(items, comes_first) =~= items);
    }
}

/// Sorting keeps the number of items.
pub proof fn sorting_keeps_length<T>(items: Seq<T>, comes_first: spec_fn(T, T) -> bool)
    ensures
        sorted_by(items, comes_first).len() == items.len(),
    decreases items.len(),
{
    if items.len() > 0 {
        sorting_keeps_length(items.drop_last(), comes_first);
        placed_contents(
            sorted_by(items.drop_last(), comes_first),
            items.last(),
            comes_first,
        );
    }
}

} // verus!
