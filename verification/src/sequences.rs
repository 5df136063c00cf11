//! Spec-level helpers on sequences and options.
use vstd::prelude::*;

verus! {

/// The view of an optional value.
pub open spec fn opt_view<T: View>(value: Option<T>) -> Option<T::V> {
    match value {
        Some(inner) => Some(inner@),
        None => None,
    }
}

/// The sequence of the elements' views.
pub open spec fn seq_view<T: View>(items: Seq<T>) -> Seq<T::V> {
    Seq::new(items.len(), |i: int| items[i]@)
}

/// The index of the first element that satisfies `pred`; the length where there is none.
pub open spec fn first_where<T>(items: Seq<T>, pred: spec_fn(T) -> bool) -> int
    decreases items.len(),
{
    if items.len() == 0 || pred(items.first()) {
        0
    } else {
        1 + first_where(items.drop_first(), pred)
    }
}

/// What `first_where` finds satisfies the predicate, and nothing before it does.
pub proof fn first_where_finds<T>(items: Seq<T>, pred: spec_fn(T) -> bool)
    ensures
        0 <= first_where(items, pred) <= items.len(),
        first_where(items, pred) < items.len() ==> pred(items[first_where(items, pred)]),
        forall|j: int| 0 <= j < first_where(items, pred) ==> !pred(#[trigger] items[j]),
    decreases items.len(),
{
    if items.len() == 0 || pred(items.first()) {
    } else {
        let rest = items.drop_first();
        first_where_finds(rest, pred);
        assert forall|j: int| 0 <= j < first_where(items, pred) implies !pred(#[trigger] items[j]) by {
            if j > 0 {
                assert(rest[j - 1] == items[j]);
            }
        }
    }
}

/// An index is the one that `first_where` gives as soon as nothing before it satisfies the
/// predicate and it does so itself or is the length.
pub proof fn first_where_is<T>(items: Seq<T>, pred: spec_fn(T) -> bool, i: int)
    requires
        0 <= i <= items.len(),
        i < items.len() ==> pred(items[i]),
        forall|j: int| 0 <= j < i ==> !pred(#[trigger] items[j]),
    ensures
        first_where(items, pred) == i,
{
    first_where_finds(items, pred);
    let found = first_where(items, pred);
    if found < i {
        assert(!pred(items[found]));
    } else if i < found {
        assert(!pred(items[i]));
    }
}

/// The sum of a count over the elements.
pub open spec fn total<T>(items: Seq<T>, count: spec_fn(T) -> nat) -> nat
    decreases items.len(),
{
    if items.len() == 0 {
        0
    } else {
        total(items.drop_last(), count) + count(items.last())
    }
}

/// Replacing an element changes the sum by the difference of the two counts.
pub proof fn total_of_update<T>(items: Seq<T>, count: spec_fn(T) -> nat, i: int, item: T)
    requires
        0 <= i < items.len(),
    ensures
        total(items.update(i, item), count) + count(items[i]) == total(items, count) + count(item),
    decreases items.len(),
{
    let updated = items.update(i, item);
    if i == items.len() - 1 {
        assert(updated.drop_last() =~= items.drop_last());
    } else {
        total_of_update(items.drop_last(), count, i, item);
        assert(updated.drop_last() =~= items.drop_last().update(i, item));
        assert(updated.last() == items.last());
    }
}

/// The sum is no less than the count of any one element.
pub proof fn total_is_at_least<T>(items: Seq<T>, count: spec_fn(T) -> nat, i: int)
    requires
        0 <= i < items.len(),
    ensures
        count(items[i]) <= total(items, count),
    decreases items.len(),
{
    if i < items.len() - 1 {
        total_is_at_least(items.drop_last(), count, i);
    }
}

/// The sum of nothing but zeros.
pub proof fn total_of_zeros<T>(items: Seq<T>, count: spec_fn(T) -> nat)
    requires
        forall|i: int| 0 <= i < items.len() ==> count(#[trigger] items[i]) == 0,
    ensures
        total(items, count) == 0,
    decreases items.len(),
{
    if items.len() > 0 {
        let front = items.drop_last();
        assert forall|i: int| 0 <= i < front.len() implies count(#[trigger] front[i]) == 0 by {
            assert(front[i] == items[i]);
        }
        total_of_zeros(front, count);
    }
}

} // verus!
