use vstd::prelude::*;

verus! {

/// `i` is the position of the first item of `items` that `wanted` selects.
pub open spec fn is_first<A>(items: Seq<A>, wanted: spec_fn(A) -> bool, i: int) -> bool {
    &&& 0 <= i < items.len()
    &&& wanted(items[i])
    &&& forall|j: int| 0 <= j < i ==> !wanted(#[trigger] items[j])
}

/// The position of the first item that `wanted` selects, if there is one.
pub open spec fn first_position<A>(items: Seq<A>, wanted: spec_fn(A) -> bool) -> Option<int> {
    if exists|i: int| is_first(items, wanted, i) {
        Some(choose|i: int| is_first(items, wanted, i))
    } else {
        None
    }
}

/// The first item that `wanted` selects, if there is one.
pub open spec fn first_match<A>(items: Seq<A>, wanted: spec_fn(A) -> bool) -> Option<A> {
    match first_position(items, wanted) {
        Some(i) => Some(items[i]),
        None => None,
    }
}

/// A scan that has met nothing selected before `i` has found the first position if the
/// item at `i` is selected, and has shown that there is none if `i` is the end.
pub proof fn lemma_first_position<A>(items: Seq<A>, wanted: spec_fn(A) -> bool, i: int)
    requires
        0 <= i <= items.len(),
        forall|j: int| 0 <= j < i ==> !wanted(#[trigger] items[j]),
    ensures
        i < items.len() && wanted(items[i]) ==> first_position(items, wanted) == Some(i),
        i == items.len() ==> first_position(items, wanted) is None,
{
    if i < items.len() && wanted(items[i]) {
        assert(is_first(items, wanted, i));
        let k = choose|k: int| is_first(items, wanted, k);
        if k < i {
            assert(!wanted(items[k]));
        }
        if i < k {
            assert(!wanted(items[i]));
        }
    }
    if i == items.len() {
        assert forall|k: int| !is_first(items, wanted, k) by {
            if 0 <= k < items.len() {
                assert(!wanted(items[k]));
            }
        }
    }
}

/// Where some item is selected, a first one is, and it stands no later.
pub proof fn lemma_some_position<A>(items: Seq<A>, wanted: spec_fn(A) -> bool, j: int)
    requires
        0 <= j < items.len(),
        wanted(items[j]),
    ensures
        first_position(items, wanted) matches Some(i) && i <= j,
    decreases j,
{
    if forall|k: int| 0 <= k < j ==> !wanted(#[trigger] items[k]) {
        lemma_first_position(items, wanted, j);
    } else {
        let k = choose|k: int| 0 <= k < j && wanted(#[trigger] items[k]);
        lemma_some_position(items, wanted, k);
    }
}

} // verus!
