//! Properties that relate several operations of `AppendVec`, stated over the
//! postconditions of those operations.
use vstd::prelude::*;

use crate::append_vec::AppendVec;

verus! {

/// `states[k + 1]` is what `insert(items[k])` leaves when called on
/// `states[k]`, and `indices[k]` is the index it returns, for every `k`.
pub open spec fn insert_chain<T>(states: Seq<AppendVec<T>>, items: Seq<T>, indices: Seq<usize>) -> bool {
    &&& states.len() == items.len() + 1
    &&& indices.len() == items.len()
    &&& forall|k: int| 0 <= k < items.len() ==> {
        &&& #[trigger] indices[k] == states[k]@.len()
        &&& states[k + 1]@ == states[k]@.push(items[k])
        &&& states[k + 1].primary_capacity() == states[k].primary_capacity()
    }
}

/// Along a chain of inserts, the `k`-th state is the first one with the first
/// `k` items appended, and the `k`-th insert took the index just past the
/// first state's elements.
proof fn lemma_insert_chain_prefix<T>(states: Seq<AppendVec<T>>, items: Seq<T>, indices: Seq<usize>, k: int)
    requires
        insert_chain(states, items, indices),
        0 <= k <= items.len(),
    ensures
        states[k]@ == states[0]@ + items.subrange(0, k),
        states[k].primary_capacity() == states[0].primary_capacity(),
        forall|j: int| 0 <= j < k ==> #[trigger] indices[j] == states[0]@.len() + j,
    decreases k,
{
    if k > 0 {
        lemma_insert_chain_prefix(states, items, indices, k - 1);
        assert(indices[k - 1] == states[k - 1]@.len());
        assert(states[0]@ + items.subrange(0, k) =~= (states[0]@ + items.subrange(0, k - 1)).push(items[k - 1]));
    } else {
        assert(states[0]@ + items.subrange(0, 0) =~= states[0]@);
    }
}

/// Inserting `items` one at a time into an empty vector hands out the indices
/// `0, 1, ..., n - 1` in that order: each index exactly once, with no gap, and
/// the vector then holds the items in insertion order.
pub proof fn lemma_inserts_take_consecutive_indices<T>(states: Seq<AppendVec<T>>, items: Seq<T>, indices: Seq<usize>)
    requires
        insert_chain(states, items, indices),
        states[0]@.len() == 0,
    ensures
        forall|k: int| 0 <= k < indices.len() ==> #[trigger] indices[k] == k,
        indices.to_set() == Set::new(|i: usize| i < indices.len()),
        states[items.len() as int]@ == items,
{
    lemma_insert_chain_prefix(states, items, indices, items.len() as int);
    assert(states[0]@ + items.subrange(0, items.len() as int) =~= items);
    assert forall|i: usize| indices.to_set().contains(i) <==> i < indices.len() by {
        if i < indices.len() {
            assert(indices[i as int] == i);
        }
    }
    assert(indices.to_set() =~= Set::new(|i: usize| i < indices.len()));
}

/// Inserting `items` into an empty vector and then settling it leaves the
/// items in insertion order, which is the order in which iteration yields
/// them.
pub proof fn lemma_settle_keeps_insertion_order<T>(
    states: Seq<AppendVec<T>>,
    items: Seq<T>,
    indices: Seq<usize>,
    settled: AppendVec<T>,
)
    requires
        insert_chain(states, items, indices),
        states[0]@.len() == 0,
        settled@ == states[items.len() as int]@,
    ensures
        settled@ == items,
{
    lemma_inserts_take_consecutive_indices(states, items, indices);
}

/// After `settle(additional)`, up to `additional` further inserts all take
/// indices inside the primary region, which they leave unchanged.
pub proof fn lemma_settled_inserts_land_in_primary<T>(
    additional: nat,
    states: Seq<AppendVec<T>>,
    items: Seq<T>,
    indices: Seq<usize>,
)
    requires
        states[0].primary_capacity() >= states[0]@.len() + additional,
        insert_chain(states, items, indices),
        items.len() <= additional,
    ensures
        forall|k: int| 0 <= k < indices.len() ==> #[trigger] indices[k] < states[0].primary_capacity(),
        forall|k: int| 0 <= k < states.len() ==> #[trigger] states[k].primary_capacity() == states[0].primary_capacity(),
{
    lemma_insert_chain_prefix(states, items, indices, items.len() as int);
    assert forall|k: int| 0 <= k < states.len() implies #[trigger] states[k].primary_capacity()
        == states[0].primary_capacity() by {
        lemma_insert_chain_prefix(states, items, indices, k);
    }
}

/// After `clear`, the next insert takes index 0 and the vector then holds just
/// that value.
pub proof fn lemma_clear_then_insert<T>(cleared: AppendVec<T>, after: AppendVec<T>, value: T, index: usize)
    requires
        cleared@ == Seq::<T>::empty(),
        index == cleared@.len(),
        after@ == cleared@.push(value),
    ensures
        cleared@.len() == 0,
        index == 0,
        after@ == seq![value],
{
    assert(after@ =~= seq![value]);
}

/// Starting from a fresh vector with a primary region of `n` slots, the first
/// `n` inserts allocate no overflow bucket, and insert `n + 1` allocates the
/// first one.
pub proof fn lemma_overflow_starts_past_primary<T>(states: Seq<AppendVec<T>>, items: Seq<T>, indices: Seq<usize>)
    requires
        insert_chain(states, items, indices),
        states[0]@.len() == 0,
        !states[0].uses_overflow(),
        items.len() == states[0].primary_capacity() + 1,
        forall|k: int| 0 <= k < items.len() ==> {
            &&& #[trigger] indices[k] < states[k].primary_capacity()
                ==> states[k + 1].uses_overflow() == states[k].uses_overflow()
            &&& indices[k] >= states[k].primary_capacity() ==> states[k + 1].uses_overflow()
        },
    ensures
        !states[items.len() - 1].uses_overflow(),
        states[items.len() as int].uses_overflow(),
{
    let n = items.len() - 1;
    lemma_insert_chain_prefix(states, items, indices, items.len() as int);
    assert forall|k: int| 0 <= k <= n implies !#[trigger] states[k].uses_overflow() by {
        lemma_no_overflow_upto(states, items, indices, k);
    }
    lemma_insert_chain_prefix(states, items, indices, n);
    assert(indices[n] == n);
}

/// Helper for the law above: no overflow bucket before the `k`-th state while
/// every index so far stayed inside the primary region.
proof fn lemma_no_overflow_upto<T>(states: Seq<AppendVec<T>>, items: Seq<T>, indices: Seq<usize>, k: int)
    requires
        insert_chain(states, items, indices),
        states[0]@.len() == 0,
        !states[0].uses_overflow(),
        0 <= k < items.len(),
        items.len() == states[0].primary_capacity() + 1,
        forall|j: int| 0 <= j < items.len() ==> {
            &&& #[trigger] indices[j] < states[j].primary_capacity()
                ==> states[j + 1].uses_overflow() == states[j].uses_overflow()
            &&& indices[j] >= states[j].primary_capacity() ==> states[j + 1].uses_overflow()
        },
    ensures
        !states[k].uses_overflow(),
    decreases k,
{
    if k > 0 {
        lemma_no_overflow_upto(states, items, indices, k - 1);
        lemma_insert_chain_prefix(states, items, indices, k);
        lemma_insert_chain_prefix(states, items, indices, k - 1);
        assert(indices[k - 1] == k - 1);
    }
}

} // verus!
