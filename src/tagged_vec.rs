//! `TaggedVec`: an append-only vector for element types without an empty
//! value. Each slot is tagged empty or occupied; an index may be handed out
//! before its value is written.
use vstd::prelude::*;

use crate::append_vec::AppendVec;
use crate::segments::{fits_exactly, fits_growth, OVERFLOW_MAX};

verus! {

/// An append-only vector of tagged slots. `len()` counts every index handed
/// out, occupied or not; `get` sees occupied slots only, and iteration stops
/// at the first empty slot.
#[verifier::reject_recursive_types(T)]
pub struct TaggedVec<T> {
    vec: AppendVec<Option<T>>,
}

impl<T> View for TaggedVec<T> {
    type V = Seq<Option<T>>;

    /// Every slot handed out: its value, or `None` while it is empty.
    closed spec fn view(&self) -> Seq<Option<T>> {
        self.vec@
    }
}

impl<T> TaggedVec<T> {
    /// Well-formedness of the underlying storage.
    pub closed spec fn wf(&self) -> bool {
        self.vec.wf()
    }

    /// The number of slots in the primary region of the storage.
    pub closed spec fn primary_capacity(&self) -> nat {
        self.vec.primary_capacity()
    }

    /// `n` more indices can be handed out.
    pub open spec fn has_room(&self, n: nat) -> bool {
        &&& self@.len() + n <= usize::MAX
        &&& self@.len() + n <= self.primary_capacity() + OVERFLOW_MAX + 1
    }

    /// An empty vector whose storage has a primary region of `capacity` slots.
    pub fn with_capacity(capacity: usize) -> (r: Self)
        requires
            fits_exactly::<Option<T>>(capacity as int),
        ensures
            r.wf(),
            r@ == Seq::<Option<T>>::empty(),
            r.primary_capacity() == capacity,
    {
        TaggedVec { vec: AppendVec::with_capacity(capacity) }
    }

    /// The number of indices handed out, occupied or not.
    pub fn len(&self) -> (r: usize)
        ensures
            r == self@.len(),
    {
        self.vec.len()
    }

    /// The length of the primary region of the storage.
    pub fn vec_capacity(&self) -> (r: usize)
        ensures
            r == self.primary_capacity(),
    {
        self.vec.vec_capacity()
    }

    /// The value at `index`, or `None` when `index >= len()` or the slot is
    /// still empty.
    pub fn get(&self, index: usize) -> (r: Option<&T>)
        requires
            self.wf(),
        ensures
            r.is_some() == (index < self@.len() && self@[index as int] is Some),
            r.is_some() ==> *r.unwrap() == self@[index as int].unwrap(),
    {
        match self.vec.get(index) {
            Some(slot) => slot.as_ref(),
            None => None,
        }
    }

    /// Writes `value` at the next index, marks it occupied, and returns the
    /// index.
    pub fn insert(&mut self, value: T) -> (r: usize)
        requires
            old(self).wf(),
            old(self).has_room(1),
        ensures
            final(self).wf(),
            r == old(self)@.len(),
            final(self)@ == old(self)@.push(Some(value)),
            final(self).primary_capacity() == old(self).primary_capacity(),
    {
        let (slot, index) = self.vec.alloc_slot();
        *slot = Some(value);
        index
    }

    /// Hands out the next index and leaves its slot empty until `fill`.
    pub fn reserve(&mut self) -> (r: usize)
        requires
            old(self).wf(),
            old(self).has_room(1),
        ensures
            final(self).wf(),
            r == old(self)@.len(),
            final(self)@ == old(self)@.push(None),
            final(self).primary_capacity() == old(self).primary_capacity(),
    {
        let (slot, index) = self.vec.alloc_slot();
        *slot = None;
        index
    }

    /// Writes `value` into the slot of a handed-out index and marks it
    /// occupied.
    pub fn fill(&mut self, index: usize, value: T)
        requires
            old(self).wf(),
            index < old(self)@.len(),
        ensures
            final(self).wf(),
            final(self)@ == old(self)@.update(index as int, Some(value)),
            final(self).primary_capacity() == old(self).primary_capacity(),
    {
        let slot = self.vec.get_unchecked_mut(index);
        *slot = Some(value);
    }

    /// The values in index order, up to the first empty slot.
    pub fn iter(&self) -> (r: Vec<&T>)
        requires
            self.wf(),
        ensures
            r@.len() <= self@.len(),
            forall|i: int| 0 <= i < r@.len() ==> #[trigger] self@[i] is Some,
            forall|i: int| 0 <= i < r@.len() ==> *#[trigger] r@[i] == self@[i].unwrap(),
            r@.len() < self@.len() ==> self@[r@.len() as int] is None,
    {
        let slots = self.vec.iter();
        let n = slots.len();
        let mut out: Vec<&T> = Vec::new();
        let mut i: usize = 0;
        while i < n
            invariant
                n == slots@.len(),
                n == self@.len(),
                forall|j: int| 0 <= j < n ==> *#[trigger] slots@[j] == self@[j],
                i <= n,
                out@.len() == i,
                forall|j: int| 0 <= j < i ==> #[trigger] self@[j] is Some,
                forall|j: int| 0 <= j < i ==> *#[trigger] out@[j] == self@[j].unwrap(),
            ensures
                out@.len() <= n,
                forall|j: int| 0 <= j < out@.len() ==> #[trigger] self@[j] is Some,
                forall|j: int| 0 <= j < out@.len() ==> *#[trigger] out@[j] == self@[j].unwrap(),
                out@.len() < n ==> self@[out@.len() as int] is None,
            decreases n - i,
        {
            match slots[i].as_ref() {
                Some(v) => out.push(v),
                None => break,
            }
            i = i + 1;
        }
        out
    }

    /// Moves every slot into one primary region with room for at least
    /// `additional` more; every slot keeps its value and tag.
    pub fn settle(&mut self, additional: usize)
        requires
            old(self).wf(),
            old(self)@.len() + additional <= usize::MAX,
            fits_growth::<Option<T>>(old(self).primary_capacity() + old(self)@.len() + additional),
        ensures
            final(self).wf(),
            final(self)@ == old(self)@,
            final(self).primary_capacity() >= old(self).primary_capacity(),
            final(self).primary_capacity() >= old(self)@.len() + additional,
    {
        self.vec.settle(additional);
    }

    /// Drops every value and empties the vector; the storage keeps a primary
    /// region of at least `additional` slots.
    pub fn clear(&mut self, additional: usize)
        requires
            old(self).wf(),
            old(self)@.len() + additional <= usize::MAX,
            fits_growth::<Option<T>>(old(self).primary_capacity() + old(self)@.len() + additional),
        ensures
            final(self).wf(),
            final(self)@ == Seq::<Option<T>>::empty(),
            final(self).primary_capacity() >= additional,
            final(self).primary_capacity() >= old(self).primary_capacity(),
    {
        self.vec.clear(additional);
    }
}

impl<T> Default for TaggedVec<T> {
    /// An empty vector with an empty primary region.
    fn default() -> (r: Self)
        ensures
            r.wf(),
            r@ == Seq::<Option<T>>::empty(),
            r.primary_capacity() == 0,
    {
        Self::with_capacity(0)
    }
}

} // verus!
