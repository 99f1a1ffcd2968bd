//! Finding the first item of a sequence that meets a condition.

use vstd::prelude::*;

verus! {

/// The position of the first item of `items` that meets `wanted`.
pub open spec fn first_index<T>(items: Seq<T>, wanted: spec_fn(T) -> bool) -> Option<int>
    decreases items.len(),
{
    if items.len() == 0 {
        None
    } else if wanted(items[0]) {
        Some(0)
    } else {
        match first_index(items.drop_first(), wanted) {
            Some(i) => Some(i + 1),
            None => None,
        }
    }
}

/// `first_index` finds an item exactly where one meets the condition, and
/// then the first such.
pub proof fn lemma_first_index<T>(items: Seq<T>, wanted: spec_fn(T) -> bool)
    ensures
        match first_index(items, wanted) {
            Some(i) => {
                &&& 0 <= i < items.len()
                &&& wanted(items[i])
                &&& forall|j: int| 0 <= j < i ==> !wanted(#[trigger] items[j])
            },
            None => forall|j: int| 0 <= j < items.len() ==> !wanted(#[trigger] items[j]),
        },
    decreases items.len(),
{
    if items.len() > 0 && !wanted(items[0]) {
        let rest = items.drop_first();
        lemma_first_index(rest, wanted);
        match first_index(rest, wanted) {
            Some(i) => {
                assert forall|j: int| 0 <= j < i + 1 implies !wanted(#[trigger] items[j]) by {
                    if j > 0 {
                        assert(items[j] == rest[j - 1]);
                    }
                }
            },
            None => {
                assert forall|j: int| 0 <= j < items.len() implies !wanted(#[trigger] items[j]) by {
                    if j > 0 {
                        assert(items[j] == rest[j - 1]);
                    }
                }
            },
        }
    }
}

/// Appending an item leaves the first where it was, and makes the new item
/// the first where there was none and it meets the condition.
pub proof fn lemma_first_index_push<T>(items: Seq<T>, item: T, wanted: spec_fn(T) -> bool)
    ensures
        first_index(items.push(item), wanted) == match first_index(items, wanted) {
            Some(i) => Some(i),
            None => if wanted(item) {
                Some(items.len() as int)
            } else {
                None
            },
        },
{
    let after = items.push(item);
    lemma_first_index(items, wanted);
    lemma_first_index(after, wanted);
    match (first_index(items, wanted), first_index(after, wanted)) {
        (Some(i), Some(k)) => {
            assert(after[i] == items[i]);
            if k < i {
                assert(after[k] == items[k]);
            }
        },
        (Some(i), None) => {
            assert(after[i] == items[i]);
        },
        (None, Some(k)) => {
            if k < items.len() {
                assert(after[k] == items[k]);
            }
        },
        (None, None) => {
            assert(after[items.len() as int] == item);
        },
    }
}

} // verus!
