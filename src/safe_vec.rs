//! `SafeVec`: an append-only vector whose readers see only a published
//! prefix. Indices are handed out in order, but an index is published only
//! once it and every index before it have been released.
use vstd::prelude::*;

use crate::append_vec::{clamped_len, AppendVec};
use crate::segments::{fits_exactly, fits_growth, OVERFLOW_MAX};
use core::ops::Range;

verus! {

/// One slot: the value once written, and whether the slot's index has been
/// released for publication.
pub struct Element<T> {
    value: Option<T>,
    released: bool,
}

impl<T> Element<T> {
    /// Holds no value and is not released.
    pub closed spec fn vacant(&self) -> bool {
        !self.released && self.value is None
    }
}

impl<T> Default for Element<T> {
    fn default() -> (r: Self)
        ensures
            r.vacant(),
    {
        Element { value: None, released: false }
    }
}

/// The end of the run of released flags that starts at `from`: the first
/// index at or after `from` that is not released, or the length of `flags`.
pub open spec fn released_run(flags: Seq<bool>, from: int) -> int
    decreases flags.len() - from,
{
    if 0 <= from < flags.len() && flags[from] {
        released_run(flags, from + 1)
    } else {
        from
    }
}

/// The run of released flags from `from` covers released slots only and ends
/// at the first slot that is not released, or at the end.
pub proof fn lemma_released_run(flags: Seq<bool>, from: int)
    requires
        0 <= from <= flags.len(),
    ensures
        from <= released_run(flags, from) <= flags.len(),
        forall|i: int| from <= i < released_run(flags, from) ==> #[trigger] flags[i],
        released_run(flags, from) < flags.len() ==> !flags[released_run(flags, from)],
    decreases flags.len() - from,
{
    if from < flags.len() && flags[from] {
        lemma_released_run(flags, from + 1);
    }
}

/// Publication never passes an index that is not released: while the entry
/// for index `i` is outstanding, the published length stays at most `i`,
/// whatever is inserted or released after it.
pub proof fn lemma_outstanding_entry_holds_publication(flags: Seq<bool>, from: int, i: int)
    requires
        0 <= from <= i < flags.len(),
        !flags[i],
    ensures
        released_run(flags, from) <= i,
{
    lemma_released_run(flags, from);
}

/// A handle on an index handed out by `SafeVec::alloc_entry`, whose slot is not
/// yet published. Releasing it (with or without a value) lets publication
/// pass its index; an entry dropped unreleased holds publication back for good.
#[must_use]
pub struct Entry {
    index: usize,
}

impl View for Entry {
    type V = nat;

    closed spec fn view(&self) -> nat {
        self.index as nat
    }
}

impl Entry {
    /// The index this entry stands for.
    pub fn index(&self) -> (r: usize)
        ensures
            r == self@,
    {
        self.index
    }

    /// Writes `value` into this entry's slot and releases it; publication
    /// then moves over every released slot that follows the published ones.
    pub fn insert<T>(self, vec: &mut SafeVec<T>, value: T)
        requires
            old(vec).wf(),
            old(vec).outstanding(self@ as int),
        ensures
            final(vec).wf(),
            final(vec).values() == old(vec).values().update(self@ as int, Some(value)),
            final(vec).flags() == old(vec).flags().update(self@ as int, true),
            final(vec)@.len() == released_run(final(vec).flags(), old(vec)@.len() as int),
            final(vec).primary_capacity() == old(vec).primary_capacity(),
    {
        let slot = vec.vec.get_unchecked_mut(self.index);
        slot.value = Some(value);
        proof {
            assert(vec.values() =~= old(vec).values().update(self@ as int, Some(value)));
            assert(vec.flags() =~= old(vec).flags());
            assert(forall|i: int| 0 <= i < vec.len ==> #[trigger] vec.vec@[i].released == old(vec).vec@[i].released);
        }
        vec.mark_released(self.index);
    }

    /// Releases this entry's slot without writing it: the slot is published
    /// in its turn and reads as holding no value.
    pub fn release<T>(self, vec: &mut SafeVec<T>)
        requires
            old(vec).wf(),
            old(vec).outstanding(self@ as int),
        ensures
            final(vec).wf(),
            final(vec).values() == old(vec).values(),
            final(vec).flags() == old(vec).flags().update(self@ as int, true),
            final(vec)@.len() == released_run(final(vec).flags(), old(vec)@.len() as int),
            final(vec).primary_capacity() == old(vec).primary_capacity(),
    {
        vec.mark_released(self.index);
    }
}

/// An append-only vector with a published length: readers see the slots
/// below `len()`, and an index is published only after it and every lower
/// index have been released.
#[verifier::reject_recursive_types(T)]
pub struct SafeVec<T> {
    vec: AppendVec<Element<T>>,
    len: usize,
}

impl<T> View for SafeVec<T> {
    type V = Seq<Option<T>>;

    /// The published slots: the value of each, or `None` where none was written.
    closed spec fn view(&self) -> Seq<Option<T>> {
        self.values().subrange(0, self.len as int)
    }
}

impl<T> SafeVec<T> {
    /// The value of every slot handed out so far, published or not.
    pub closed spec fn values(&self) -> Seq<Option<T>> {
        Seq::new(self.vec@.len(), |i: int| self.vec@[i].value)
    }

    /// For every slot handed out so far, whether it has been released.
    pub closed spec fn flags(&self) -> Seq<bool> {
        Seq::new(self.vec@.len(), |i: int| self.vec@[i].released)
    }

    /// The number of slots in the primary region of the storage.
    pub closed spec fn primary_capacity(&self) -> nat {
        self.vec.primary_capacity()
    }

    /// Index `i` was handed out by `alloc_entry` and is not yet released.
    pub open spec fn outstanding(&self, i: int) -> bool {
        self@.len() <= i < self.flags().len() && !self.flags()[i]
    }

    /// `n` more indices can be handed out.
    pub open spec fn has_room(&self, n: nat) -> bool {
        &&& self.flags().len() + n <= usize::MAX
        &&& self.flags().len() + n <= self.primary_capacity() + OVERFLOW_MAX + 1
    }

    /// Well-formedness: every published slot is released, and publication has
    /// gone as far as the released slots allow.
    pub closed spec fn wf(&self) -> bool {
        &&& self.vec.wf()
        &&& self.len <= self.vec@.len()
        &&& forall|i: int| 0 <= i < self.len ==> #[trigger] self.vec@[i].released
        &&& self.len < self.vec@.len() ==> !self.vec@[self.len as int].released
    }

    /// The number of published slots.
    pub fn len(&self) -> (r: usize)
        requires
            self.wf(),
        ensures
            r == self@.len(),
    {
        self.len
    }

    /// The length of the primary region of the storage.
    pub fn vec_capacity(&self) -> (r: usize)
        ensures
            r == self.primary_capacity(),
    {
        self.vec.vec_capacity()
    }

    /// The value at `index`, or `None` when `index` is not published or its
    /// slot was released without a value.
    pub fn get(&self, index: usize) -> (r: Option<&T>)
        requires
            self.wf(),
        ensures
            r.is_some() == (index < self@.len() && self@[index as int] is Some),
            r.is_some() ==> *r.unwrap() == self@[index as int].unwrap(),
    {
        if index >= self.len {
            return None;
        }
        self.vec.get_unchecked(index).value.as_ref()
    }

    /// The value at `index`, which must be published and hold a value.
    pub fn get_unchecked(&self, index: usize) -> (r: &T)
        requires
            self.wf(),
            index < self@.len(),
            self@[index as int] is Some,
        ensures
            *r == self@[index as int].unwrap(),
    {
        self.vec.get_unchecked(index).value.as_ref().unwrap()
    }

    /// The published view is the prefix of the slot values up to `len()`;
    /// every published slot is released, and the first slot past them (if
    /// any) is not.
    pub proof fn lemma_view_is_published_prefix(&self)
        requires
            self.wf(),
        ensures
            self.values().len() == self.flags().len(),
            self@.len() <= self.values().len(),
            self@ == self.values().subrange(0, self@.len() as int),
            forall|i: int| 0 <= i < self@.len() ==> #[trigger] self.flags()[i],
            released_run(self.flags(), self@.len() as int) == self@.len(),
    {
        assert(forall|i: int| 0 <= i < self@.len() ==> #[trigger] self.flags()[i] == self.vec@[i].released);
    }

    /// Exclusive access to the value at `index`, or `None` when `index` is
    /// not published or its slot holds no value.
    pub fn get_mut(&mut self, index: usize) -> (r: Option<&mut T>)
        requires
            old(self).wf(),
        ensures
            final(self).wf(),
            final(self)@.len() == old(self)@.len(),
            final(self).flags() == old(self).flags(),
            final(self).primary_capacity() == old(self).primary_capacity(),
            r.is_some() == (index < old(self)@.len() && old(self)@[index as int] is Some),
            r.is_none() ==> final(self).values() == old(self).values(),
            r.is_some() ==> *r.unwrap() == old(self)@[index as int].unwrap(),
            r.is_some() ==> final(self).values() =~= old(self).values().update(index as int, Some(*final(r.unwrap()))),
    {
        if index >= self.len {
            return None;
        }
        self.vec.get_unchecked_mut(index).value.as_mut()
    }

    /// Exclusive access to the value at `index`, which must be published and
    /// hold a value.
    pub fn get_unchecked_mut(&mut self, index: usize) -> (r: &mut T)
        requires
            old(self).wf(),
            index < old(self)@.len(),
            old(self)@[index as int] is Some,
        ensures
            final(self).wf(),
            final(self)@.len() == old(self)@.len(),
            final(self).flags() == old(self).flags(),
            final(self).primary_capacity() == old(self).primary_capacity(),
            *r == old(self)@[index as int].unwrap(),
            final(self).values() =~= old(self).values().update(index as int, Some(*final(r))),
    {
        self.vec.get_unchecked_mut(index).value.as_mut().unwrap()
    }

    /// Writable access to the value of any slot handed out so far, published
    /// or not, or `None` when `index` was not handed out or its slot holds no
    /// value. Meant for the writer that owns the slot.
    pub fn load(&mut self, index: usize) -> (r: Option<&mut T>)
        requires
            old(self).wf(),
        ensures
            final(self).wf(),
            final(self)@.len() == old(self)@.len(),
            final(self).flags() == old(self).flags(),
            final(self).primary_capacity() == old(self).primary_capacity(),
            r.is_some() == (index < old(self).values().len() && old(self).values()[index as int] is Some),
            r.is_none() ==> final(self).values() == old(self).values(),
            r.is_some() ==> *r.unwrap() == old(self).values()[index as int].unwrap(),
            r.is_some() ==> final(self).values() =~= old(self).values().update(index as int, Some(*final(r.unwrap()))),
    {
        match self.vec.load(index) {
            Some(slot) => slot.value.as_mut(),
            None => None,
        }
    }

    /// Writable access to the value of a slot handed out so far, which must
    /// hold a value.
    pub fn load_unchecked(&mut self, index: usize) -> (r: &mut T)
        requires
            old(self).wf(),
            index < old(self).values().len(),
            old(self).values()[index as int] is Some,
        ensures
            final(self).wf(),
            final(self)@.len() == old(self)@.len(),
            final(self).flags() == old(self).flags(),
            final(self).primary_capacity() == old(self).primary_capacity(),
            *r == old(self).values()[index as int].unwrap(),
            final(self).values() =~= old(self).values().update(index as int, Some(*final(r))),
    {
        self.vec.load(index).unwrap().value.as_mut().unwrap()
    }

    /// The published values in index order, up to the first published slot
    /// that holds no value.
    pub fn iter(&self) -> (r: Vec<&T>)
        requires
            self.wf(),
        ensures
            r@.len() <= self@.len(),
            forall|i: int| 0 <= i < r@.len() ==> #[trigger] self@[i] is Some,
            forall|i: int| 0 <= i < r@.len() ==> *#[trigger] r@[i] == self@[i].unwrap(),
            r@.len() < self@.len() ==> self@[r@.len() as int] is None,
    {
        let all = 0..self.len;
        assert(all.start == 0 && all.end == self.len);
        let r = self.slice(all);
        proof {
            assert forall|i: int| 0 <= i < r@.len() implies #[trigger] self@[i] is Some by {
                assert(self@[all.start + i] is Some);
            }
            assert forall|i: int| 0 <= i < r@.len() implies *#[trigger] r@[i] == self@[i].unwrap() by {
                assert(*r@[i] == self@[all.start + i].unwrap());
            }
        }
        r
    }

    /// The published values at indices `range.start..min(range.end, len())`,
    /// in index order, up to the first slot there that holds no value.
    pub fn slice(&self, range: Range<usize>) -> (r: Vec<&T>)
        requires
            self.wf(),
        ensures
            r@.len() <= clamped_len(range.start as int, range.end as int, self@.len() as int),
            forall|i: int| 0 <= i < r@.len() ==> #[trigger] self@[range.start + i] is Some,
            forall|i: int| 0 <= i < r@.len() ==> *#[trigger] r@[i] == self@[range.start + i].unwrap(),
            r@.len() < clamped_len(range.start as int, range.end as int, self@.len() as int)
                ==> self@[range.start + r@.len()] is None,
    {
        let slots = self.vec.slice(range.start..self.len);
        let mut out: Vec<&T> = Vec::new();
        let mut i: usize = 0;
        let n = slots.len();
        let end = if range.end <= self.len { range.end } else { self.len };
        let count = if range.start < end { end - range.start } else { 0 };
        while i < count
            invariant
                self.wf(),
                i <= count,
                count == clamped_len(range.start as int, range.end as int, self@.len() as int),
                n == slots@.len(),
                n == clamped_len(range.start as int, self.len as int, self@.len() as int),
                count <= n,
                forall|j: int| 0 <= j < n ==> *#[trigger] slots@[j] == self.vec@[range.start + j],
                out@.len() == i,
                forall|j: int| 0 <= j < i ==> #[trigger] self@[range.start + j] is Some,
                forall|j: int| 0 <= j < i ==> *#[trigger] out@[j] == self@[range.start + j].unwrap(),
            ensures
                out@.len() <= count,
                forall|j: int| 0 <= j < out@.len() ==> #[trigger] self@[range.start + j] is Some,
                forall|j: int| 0 <= j < out@.len() ==> *#[trigger] out@[j] == self@[range.start + j].unwrap(),
                out@.len() < count ==> self@[range.start + out@.len()] is None,
            decreases count - i,
        {
            let slot = slots[i];
            proof {
                assert(self@[range.start + i] == self.vec@[range.start + i].value);
            }
            match slot.value.as_ref() {
                Some(v) => out.push(v),
                None => break,
            }
            i = i + 1;
        }
        out
    }

    /// Moves every slot into one primary region with room for at least
    /// `additional` more; every slot keeps its value and release state.
    pub fn settle(&mut self, additional: usize)
        requires
            old(self).wf(),
            old(self).values().len() + additional <= usize::MAX,
            fits_growth::<Element<T>>(old(self).primary_capacity() + old(self).values().len() + additional),
        ensures
            final(self).wf(),
            final(self)@ == old(self)@,
            final(self).values() == old(self).values(),
            final(self).flags() == old(self).flags(),
            final(self).primary_capacity() >= old(self).primary_capacity(),
            final(self).primary_capacity() >= old(self).values().len() + additional,
    {
        self.vec.settle(additional);
        proof {
            assert(self.values() =~= old(self).values());
            assert(self.flags() =~= old(self).flags());
        }
    }

    /// Drops every value and empties the vector, published or not; the
    /// storage keeps a primary region of at least `additional` slots.
    pub fn clear(&mut self, additional: usize)
        requires
            old(self).wf(),
            old(self).values().len() + additional <= usize::MAX,
            fits_growth::<Element<T>>(old(self).primary_capacity() + old(self).values().len() + additional),
        ensures
            final(self).wf(),
            final(self)@ == Seq::<Option<T>>::empty(),
            final(self).values() == Seq::<Option<T>>::empty(),
            final(self).flags() == Seq::<bool>::empty(),
            final(self).primary_capacity() >= additional,
            final(self).primary_capacity() >= old(self).primary_capacity(),
    {
        self.len = 0;
        self.vec.clear(additional);
        proof {
            assert(self.values() =~= Seq::<Option<T>>::empty());
            assert(self.flags() =~= Seq::<bool>::empty());
            assert(self@ =~= Seq::<Option<T>>::empty());
        }
    }

    /// Moves the published length over every released slot that follows it.
    fn publish_released(&mut self)
        requires
            old(self).vec.wf(),
            old(self).len <= old(self).vec@.len(),
            forall|i: int| 0 <= i < old(self).len ==> #[trigger] old(self).vec@[i].released,
        ensures
            final(self).wf(),
            final(self).vec == old(self).vec,
            final(self).len == released_run(old(self).flags(), old(self).len as int),
    {
        loop
            invariant
                self.vec == old(self).vec,
                self.vec.wf(),
                old(self).len <= self.len <= self.vec@.len(),
                forall|i: int| 0 <= i < self.len ==> #[trigger] self.vec@[i].released,
                released_run(self.flags(), self.len as int) == released_run(old(self).flags(), old(self).len as int),
            ensures
                self.len == self.vec@.len() || !self.vec@[self.len as int].released,
            decreases self.vec@.len() - self.len,
        {
            if self.len >= self.vec.len() {
                break;
            }
            if !self.vec.get_unchecked(self.len).released {
                break;
            }
            proof {
                assert(self.flags()[self.len as int]);
            }
            self.len = self.len + 1;
        }
        proof {
            assert(released_run(self.flags(), self.len as int) == self.len);
        }
    }

    /// An empty vector whose storage has a primary region of `capacity` slots.
    pub fn with_capacity(capacity: usize) -> (r: Self)
        requires
            fits_exactly::<Element<T>>(capacity as int),
        ensures
            r.wf(),
            r@ == Seq::<Option<T>>::empty(),
            r.values() == Seq::<Option<T>>::empty(),
            r.flags() == Seq::<bool>::empty(),
            r.primary_capacity() == capacity,
    {
        let r = SafeVec { vec: AppendVec::with_capacity(capacity), len: 0 };
        proof {
            assert(r.values() =~= Seq::<Option<T>>::empty());
            assert(r.flags() =~= Seq::<bool>::empty());
            assert(r@ =~= Seq::<Option<T>>::empty());
        }
        r
    }

    /// Writes `value` at the next index, releases it, and returns the index.
    /// The index is published at once when no earlier index is outstanding;
    /// otherwise it waits for them.
    pub fn insert(&mut self, value: T) -> (r: usize)
        requires
            old(self).wf(),
            old(self).has_room(1),
        ensures
            final(self).wf(),
            r == old(self).values().len(),
            final(self).values() == old(self).values().push(Some(value)),
            final(self).flags() == old(self).flags().push(true),
            final(self)@ == if old(self)@.len() == r {
                old(self)@.push(Some(value))
            } else {
                old(self)@
            },
            final(self).primary_capacity() == old(self).primary_capacity(),
    {
        let (slot, index) = self.vec.alloc_slot();
        *slot = Element { value: Some(value), released: true };
        proof {
            assert(self.values() =~= old(self).values().push(Some(value)));
            assert(self.flags() =~= old(self).flags().push(true));
            assert(forall|i: int| 0 <= i < self.len ==> #[trigger] self.vec@[i].released == old(self).vec@[i].released);
            if self.len < index {
                assert(!self.flags()[self.len as int]);
            } else {
                assert(self.flags()[index as int]);
                assert(released_run(self.flags(), index + 1) == index + 1);
            }
        }
        self.publish_released();
        proof {
            if old(self).len == index {
                assert(self@ =~= old(self)@.push(Some(value)));
            } else {
                assert(self@ =~= old(self)@);
            }
        }
        index
    }

    /// Hands out the next index without writing or publishing it. The
    /// returned entry stands for that index until it is released.
    pub fn alloc_entry(&mut self) -> (r: Entry)
        requires
            old(self).wf(),
            old(self).has_room(1),
        ensures
            final(self).wf(),
            r@ == old(self).values().len(),
            final(self).values() == old(self).values().push(None),
            final(self).flags() == old(self).flags().push(false),
            final(self)@ == old(self)@,
            final(self).outstanding(r@ as int),
            final(self).primary_capacity() == old(self).primary_capacity(),
    {
        let (slot, index) = self.vec.alloc_slot();
        *slot = Element { value: None, released: false };
        proof {
            assert(self.values() =~= old(self).values().push(None));
            assert(self.flags() =~= old(self).flags().push(false));
            assert(forall|i: int| 0 <= i < self.len ==> #[trigger] self.vec@[i].released == old(self).vec@[i].released);
            assert(self@ =~= old(self)@);
        }
        Entry { index }
    }

    /// Releases the outstanding slot `index` and publishes as far as the
    /// released slots allow.
    fn mark_released(&mut self, index: usize)
        requires
            old(self).wf(),
            old(self).outstanding(index as int),
        ensures
            final(self).wf(),
            final(self).values() == old(self).values(),
            final(self).flags() == old(self).flags().update(index as int, true),
            final(self)@.len() == released_run(final(self).flags(), old(self)@.len() as int),
            final(self).primary_capacity() == old(self).primary_capacity(),
    {
        let slot = self.vec.get_unchecked_mut(index);
        slot.released = true;
        proof {
            assert(self.values() =~= old(self).values());
            assert(self.flags() =~= old(self).flags().update(index as int, true));
            assert(forall|i: int| 0 <= i < self.len ==> #[trigger] self.vec@[i].released == old(self).vec@[i].released);
        }
        self.publish_released();
    }
}

impl<T> core::ops::Index<usize> for SafeVec<T> {
    type Output = T;

    /// The value at `index`, which must be published and hold a value.
    fn index(&self, index: usize) -> (r: &T)
        ensures
            *r == self@[index as int].unwrap(),
    {
        self.get_unchecked(index)
    }
}

impl<T> vstd::std_specs::core::IndexSpecImpl<usize> for SafeVec<T> {
    open spec fn index_req(&self, index: &usize) -> bool {
        self.wf() && *index < self@.len() && self@[*index as int] is Some
    }
}

impl<T> Default for SafeVec<T> {
    /// An empty vector with an empty primary region.
    fn default() -> (r: Self)
        ensures
            r.wf(),
            r@ == Seq::<Option<T>>::empty(),
            r.values() == Seq::<Option<T>>::empty(),
            r.flags() == Seq::<bool>::empty(),
            r.primary_capacity() == 0,
    {
        Self::with_capacity(0)
    }
}

} // verus!
