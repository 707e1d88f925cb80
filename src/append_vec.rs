//! `AppendVec`: an append-only vector over a primary region and lazily
//! allocated overflow buckets, where every index below `len` is readable.
use vstd::prelude::*;

use crate::segments::{fits_exactly, fits_growth, Segments, OVERFLOW_MAX};
use core::ops::Range;

verus! {

/// The number of indices in `start..min(end, len)`.
pub open spec fn clamped_len(start: int, end: int, len: int) -> int {
    let e = if end <= len { end } else { len };
    if start < e { e - start } else { 0 }
}

/// An append-only vector. Each insert takes the next index; `settle` moves all
/// elements into one primary region, and `clear` empties the vector.
#[verifier::reject_recursive_types(T)]
pub struct AppendVec<T> {
    len: usize,
    arr: Segments<T>,
}

impl<T> View for AppendVec<T> {
    type V = Seq<T>;

    /// The elements at indices `0..len`, in index order.
    closed spec fn view(&self) -> Seq<T> {
        Seq::new(self.len as nat, |i: int| self.arr.cells()[i as nat])
    }
}

impl<T> AppendVec<T> {
    /// Well-formedness: the storage is well formed and every index below
    /// `len` names a materialised slot.
    pub closed spec fn wf(&self) -> bool {
        &&& self.arr.wf()
        &&& forall|k: nat| k < self.len ==> #[trigger] self.arr.cells().contains_key(k)
    }

    /// The number of slots in the primary region.
    pub closed spec fn primary_capacity(&self) -> nat {
        self.arr.primary()
    }

    /// Some element slot lies in an allocated overflow bucket.
    pub closed spec fn uses_overflow(&self) -> bool {
        self.arr.uses_overflow()
    }

    /// `n` more indices can be handed out: the count fits in `usize`, and the
    /// last one lies within reach of the overflow buckets.
    pub open spec fn has_room(&self, n: nat) -> bool {
        &&& self@.len() + n <= usize::MAX
        &&& self@.len() + n <= self.primary_capacity() + OVERFLOW_MAX + 1
    }

    /// The number of elements.
    pub fn len(&self) -> (r: usize)
        ensures
            r == self@.len(),
    {
        self.len
    }

    /// The element at `index`, or `None` when `index >= len()`.
    pub fn get(&self, index: usize) -> (r: Option<&T>)
        requires
            self.wf(),
        ensures
            r.is_some() == (index < self@.len()),
            r.is_some() ==> *r.unwrap() == self@[index as int],
    {
        if index >= self.len {
            return None;
        }
        self.arr.get(index)
    }

    /// The element at `index`, which must be below `len()`.
    pub fn get_unchecked(&self, index: usize) -> (r: &T)
        requires
            self.wf(),
            index < self@.len(),
        ensures
            *r == self@[index as int],
    {
        self.arr.get(index).unwrap()
    }

    /// The length of the primary region.
    pub fn vec_capacity(&self) -> (r: usize)
        ensures
            r == self.primary_capacity(),
    {
        self.arr.primary_len()
    }
}

impl<T: Default> AppendVec<T> {
    /// An empty vector whose primary region holds `capacity` slots.
    pub fn with_capacity(capacity: usize) -> (r: Self)
        requires
            fits_exactly::<T>(capacity as int),
        ensures
            r.wf(),
            r@ == Seq::<T>::empty(),
            r.primary_capacity() == capacity,
            !r.uses_overflow(),
    {
        AppendVec { len: 0, arr: Segments::with_capacity(capacity) }
    }

    /// Appends `value` at the next index and returns that index; the element is
    /// readable as soon as this returns.
    pub fn insert(&mut self, value: T) -> (r: usize)
        requires
            old(self).wf(),
            old(self).has_room(1),
        ensures
            final(self).wf(),
            r == old(self)@.len(),
            final(self)@ == old(self)@.push(value),
            final(self).primary_capacity() == old(self).primary_capacity(),
            r < old(self).primary_capacity() ==> final(self).uses_overflow() == old(self).uses_overflow(),
            r >= old(self).primary_capacity() ==> final(self).uses_overflow(),
    {
        let index = self.len;
        let slot = self.arr.touch(index);
        *slot = value;
        self.len = index + 1;
        proof {
            assert forall|k: nat| k < self.len implies #[trigger] self.arr.cells().contains_key(k)
                && (k < index ==> self.arr.cells()[k] == old(self).arr.cells()[k]) by {
                if k < index {
                    assert(old(self).arr.cells().contains_key(k));
                }
            }
            assert forall|i: int| 0 <= i < index implies #[trigger] self@[i] == old(self)@[i] by {
                assert(self.arr.cells().contains_key(i as nat));
            }
            assert(self@ =~= old(self)@.push(value));
        }
        index
    }

    /// Exclusive access to the element at `index`, or `None` when
    /// `index >= len()`.
    pub fn get_mut(&mut self, index: usize) -> (r: Option<&mut T>)
        requires
            old(self).wf(),
        ensures
            final(self).wf(),
            final(self).primary_capacity() == old(self).primary_capacity(),
            final(self).uses_overflow() == old(self).uses_overflow(),
            r.is_some() == (index < old(self)@.len()),
            r.is_none() ==> final(self)@ == old(self)@,
            r.is_some() ==> *r.unwrap() == old(self)@[index as int],
            r.is_some() ==> final(self)@ =~= old(self)@.update(index as int, *final(r.unwrap())),
    {
        if index >= self.len {
            return None;
        }
        self.arr.get_mut(index)
    }

    /// Exclusive access to the element at `index`, which must be below `len()`.
    pub fn get_unchecked_mut(&mut self, index: usize) -> (r: &mut T)
        requires
            old(self).wf(),
            index < old(self)@.len(),
        ensures
            final(self).wf(),
            final(self).primary_capacity() == old(self).primary_capacity(),
            final(self).uses_overflow() == old(self).uses_overflow(),
            *r == old(self)@[index as int],
            final(self)@ =~= old(self)@.update(index as int, *final(r)),
    {
        self.arr.get_mut(index).unwrap()
    }

    /// Writable access to the element at `index` through the allocating path
    /// of the storage, or `None` when `index >= len()`.
    pub fn load(&mut self, index: usize) -> (r: Option<&mut T>)
        requires
            old(self).wf(),
        ensures
            final(self).wf(),
            final(self).primary_capacity() == old(self).primary_capacity(),
            final(self).uses_overflow() == old(self).uses_overflow(),
            r.is_some() == (index < old(self)@.len()),
            r.is_none() ==> final(self)@ == old(self)@,
            r.is_some() ==> *r.unwrap() == old(self)@[index as int],
            r.is_some() ==> final(self)@ =~= old(self)@.update(index as int, *final(r.unwrap())),
    {
        if index >= self.len {
            return None;
        }
        proof {
            assert(self.arr.cells().contains_key(index as nat));
        }
        Some(self.arr.touch(index))
    }

    /// Writable access to the slot at `index` whether or not it lies below
    /// `len()`, materialising it when needed. A write below `len()` changes
    /// that element; a write above it is not part of the vector until the
    /// index is handed out.
    pub fn load_unchecked(&mut self, index: usize) -> (r: &mut T)
        requires
            old(self).wf(),
            index <= old(self).primary_capacity() + OVERFLOW_MAX,
        ensures
            final(self).wf(),
            final(self).primary_capacity() == old(self).primary_capacity(),
            index < old(self)@.len() ==> *r == old(self)@[index as int],
            index < old(self)@.len() ==> final(self)@ =~= old(self)@.update(index as int, *final(r)),
            index >= old(self)@.len() ==> final(self)@ =~= old(self)@,
    {
        self.arr.touch(index)
    }

    /// Hands out the next index together with writable access to its slot,
    /// which holds a default or earlier value until written.
    pub fn alloc_slot(&mut self) -> (r: (&mut T, usize))
        requires
            old(self).wf(),
            old(self).has_room(1),
        ensures
            final(self).wf(),
            final(self).primary_capacity() == old(self).primary_capacity(),
            r.1 == old(self)@.len(),
            final(self)@ =~= old(self)@.push(*final(r.0)),
    {
        let index = self.alloc_index(1);
        proof {
            assert(self.arr.cells().contains_key(index as nat));
        }
        (self.arr.touch(index), index)
    }

    /// Hands out `multiple` consecutive indices and returns the first; their
    /// slots are materialised and keep a default or earlier value.
    pub fn alloc_index(&mut self, multiple: usize) -> (r: usize)
        requires
            old(self).wf(),
            old(self).has_room(multiple as nat),
        ensures
            final(self).wf(),
            final(self).primary_capacity() == old(self).primary_capacity(),
            r == old(self)@.len(),
            final(self)@.len() == old(self)@.len() + multiple,
            final(self)@.subrange(0, r as int) =~= old(self)@,
    {
        let start = self.len;
        let end = start + multiple;
        let mut i: usize = start;
        while i < end
            invariant
                start <= i <= end,
                end == old(self)@.len() + multiple,
                end <= old(self).primary_capacity() + OVERFLOW_MAX + 1,
                self.len == start,
                start == old(self)@.len(),
                self.arr.wf(),
                self.arr.primary() == old(self).arr.primary(),
                forall|k: nat| k < i ==> #[trigger] self.arr.cells().contains_key(k),
                forall|k: nat| k < start ==> #[trigger] self.arr.cells()[k] == old(self).arr.cells()[k],
            decreases end - i,
        {
            self.arr.touch(i);
            i = i + 1;
        }
        self.len = end;
        proof {
            assert forall|j: int| 0 <= j < start implies #[trigger] self@[j] == old(self)@[j] by {
                assert(self.arr.cells()[j as nat] == old(self).arr.cells()[j as nat]);
            }
        }
        start
    }

    /// Sets the number of elements. Slots past the old length are materialised
    /// and keep a default or earlier value.
    pub fn set_len(&mut self, len: usize)
        requires
            old(self).wf(),
            len <= old(self).primary_capacity() + OVERFLOW_MAX + 1,
        ensures
            final(self).wf(),
            final(self).primary_capacity() == old(self).primary_capacity(),
            final(self)@.len() == len,
            len <= old(self)@.len() ==> final(self)@ =~= old(self)@.subrange(0, len as int),
            len > old(self)@.len() ==> final(self)@.subrange(0, old(self)@.len() as int) =~= old(self)@,
    {
        if len > self.len {
            self.alloc_index(len - self.len);
        } else {
            self.len = len;
        }
    }

    /// The elements, in index order.
    pub fn iter(&self) -> (r: Vec<&T>)
        requires
            self.wf(),
        ensures
            r@.len() == self@.len(),
            forall|i: int| 0 <= i < r@.len() ==> *#[trigger] r@[i] == self@[i],
    {
        self.slice_raw(0..self.len)
    }

    /// The elements at indices `range.start..min(range.end, len())`, in index
    /// order; empty when that range is.
    pub fn slice(&self, range: Range<usize>) -> (r: Vec<&T>)
        requires
            self.wf(),
        ensures
            r@.len() == clamped_len(range.start as int, range.end as int, self@.len() as int),
            forall|i: int| 0 <= i < r@.len() ==> *#[trigger] r@[i] == self@[range.start + i],
    {
        let end = if range.end <= self.len { range.end } else { self.len };
        if range.start >= end {
            return Vec::new();
        }
        self.slice_raw(range.start..end)
    }

    /// The elements at indices `range`, which must lie within `0..len()`.
    pub fn slice_raw(&self, range: Range<usize>) -> (r: Vec<&T>)
        requires
            self.wf(),
            range.start <= range.end <= self@.len(),
        ensures
            r@.len() == range.end - range.start,
            forall|i: int| 0 <= i < r@.len() ==> *#[trigger] r@[i] == self@[range.start + i],
    {
        proof {
            if range.end > 0 {
                assert(self.arr.cells().contains_key((range.end - 1) as nat));
            }
        }
        self.arr.slice(range.start, range.end)
    }

    /// Moves every element into one primary region with room for at least
    /// `additional` more, and releases all overflow buckets. Requires exclusive
    /// access, like every change to the vector.
    pub fn settle(&mut self, additional: usize)
        requires
            old(self).wf(),
            old(self)@.len() + additional <= usize::MAX,
            fits_growth::<T>(old(self).primary_capacity() + old(self)@.len() + additional),
        ensures
            final(self).wf(),
            final(self)@ =~= old(self)@,
            final(self).primary_capacity() >= old(self).primary_capacity(),
            final(self).primary_capacity() >= old(self)@.len() + additional,
            !final(self).uses_overflow(),
    {
        self.arr.settle(self.len, additional);
        proof {
            assert forall|j: int| 0 <= j < self.len implies #[trigger] self@[j] == old(self)@[j] by {
                assert(old(self).arr.cells().contains_key(j as nat));
                assert(self.arr.cells()[j as nat] == old(self).arr.cells()[j as nat]);
            }
        }
    }

    /// Drops every element and bucket, and leaves an empty vector whose primary
    /// region holds `max(len() + additional, old primary capacity)` slots.
    pub fn clear(&mut self, additional: usize)
        requires
            old(self).wf(),
            old(self)@.len() + additional <= usize::MAX,
            fits_growth::<T>(old(self).primary_capacity() + old(self)@.len() + additional),
        ensures
            final(self).wf(),
            final(self)@ == Seq::<T>::empty(),
            final(self).primary_capacity() == if old(self)@.len() + additional >= old(self).primary_capacity() {
                (old(self)@.len() + additional) as nat
            } else {
                old(self).primary_capacity()
            },
            !final(self).uses_overflow(),
    {
        let len = self.len;
        self.len = 0;
        self.arr.clear(len, additional);
        proof {
            assert(self@ =~= Seq::<T>::empty());
        }
    }
}

impl<T> core::ops::Index<usize> for AppendVec<T> {
    type Output = T;

    /// The element at `index`, which must be below `len()`.
    fn index(&self, index: usize) -> (r: &T)
        ensures
            *r == self@[index as int],
    {
        self.get_unchecked(index)
    }
}

impl<T> vstd::std_specs::core::IndexSpecImpl<usize> for AppendVec<T> {
    open spec fn index_req(&self, index: &usize) -> bool {
        self.wf() && *index < self@.len()
    }
}

impl<T: Default> Default for AppendVec<T> {
    /// An empty vector with an empty primary region.
    fn default() -> (r: Self)
        ensures
            r.wf(),
            r@ == Seq::<T>::empty(),
            r.primary_capacity() == 0,
    {
        Self::with_capacity(0)
    }
}

} // verus!
