//! Slot storage: a contiguous primary region followed by overflow buckets
//! that are allocated on first touch.
//!
//! The storage itself is `pi_arr::SegmentedArr`. Each method of `Segments`
//! makes one call into it; its contract states what that call does, over a
//! ghost model of the materialised slots.
use vstd::prelude::*;

use pi_arr::SegmentedArr;

verus! {

/// The largest offset past the primary region that an overflow bucket can
/// address; a touch beyond it is refused by the bucket store.
pub const OVERFLOW_MAX: usize = 0xFFFF_FFDF;

/// A `Vec` of `n` slots of `T` stays within `isize::MAX` bytes; a larger one
/// panics with a capacity overflow.
pub open spec fn fits_exactly<T>(n: int) -> bool {
    n * vstd::layout::size_of::<T>() <= isize::MAX
}

/// Growing a `Vec` towards `n` slots of `T` stays within `isize::MAX` bytes,
/// even where growth doubles the old capacity or rounds up to its minimum.
pub open spec fn fits_growth<T>(n: int) -> bool {
    (2 * n + 8) * vstd::layout::size_of::<T>() <= isize::MAX
}

/// Declares `pi_arr::SegmentedArr` (what `pi_arr::Arr` names in a threaded
/// build) as an opaque type; `Segments` models its contents.
#[verifier::external_type_specification]
#[verifier::external_body]
#[verifier::reject_recursive_types(T)]
pub struct ExSegmentedArr<T>(SegmentedArr<T>);

/// Slot storage with a ghost model: the value of every materialised slot, and
/// the length of the primary region. The method bodies never write the ghost
/// fields; the model is what the methods' contracts say of it.
#[verifier::reject_recursive_types(T)]
pub struct Segments<T> {
    arr: SegmentedArr<T>,
    cells: Ghost<Map<nat, T>>,
    primary: Ghost<nat>,
}

impl<T> Segments<T> {
    /// The value of every slot that is materialised: in the primary region, or
    /// in an overflow bucket that has been allocated.
    pub closed spec fn cells(&self) -> Map<nat, T> {
        self.cells@
    }

    /// The number of slots in the primary region.
    pub closed spec fn primary(&self) -> nat {
        self.primary@
    }

    /// Some overflow bucket has been allocated.
    pub open spec fn uses_overflow(&self) -> bool {
        exists|k: nat| self.cells().contains_key(k) && k >= self.primary()
    }

    /// The primary region is materialised, and nothing lies beyond the reach
    /// of the overflow buckets.
    pub open spec fn wf(&self) -> bool {
        &&& forall|k: nat| k < self.primary() ==> #[trigger] self.cells().contains_key(k)
        &&& forall|k: nat| #[trigger] self.cells().contains_key(k) ==> k <= self.primary() + OVERFLOW_MAX
        &&& self.primary() <= usize::MAX
    }

    /// Relies on `SegmentedArr::contiguous_len`: the length of the primary region.
    #[verifier::external_body]
    pub(crate) fn primary_len(&self) -> (r: usize)
        ensures
            r == self.primary(),
    {
        self.arr.contiguous_len()
    }

    /// Relies on `SegmentedArr::get`: the slot's value when it is materialised,
    /// and `None` otherwise; nothing is allocated.
    #[verifier::external_body]
    pub(crate) fn get(&self, index: usize) -> (r: Option<&T>)
        ensures
            r.is_some() == self.cells().contains_key(index as nat),
            r.is_some() ==> *r.unwrap() == self.cells()[index as nat],
    {
        self.arr.get(index)
    }

    /// Relies on `SegmentedArr::get_mut`: exclusive access to a materialised
    /// slot, `None` for any other; nothing is allocated.
    #[verifier::external_body]
    pub(crate) fn get_mut(&mut self, index: usize) -> (r: Option<&mut T>)
        ensures
            r.is_some() == old(self).cells().contains_key(index as nat),
            r.is_none() ==> *final(self) == *old(self),
            r.is_some() ==> {
                &&& *r.unwrap() == old(self).cells()[index as nat]
                &&& final(self).cells() == old(self).cells().insert(index as nat, *final(r.unwrap()))
                &&& final(self).cells().dom() == old(self).cells().dom()
                &&& final(self).primary() == old(self).primary()
            },
    {
        self.arr.get_mut(index)
    }

    /// Relies on `SegmentedArr::slice` over a range with no unallocated gap:
    /// it visits every slot of the range, in index order.
    #[verifier::external_body]
    pub(crate) fn slice(&self, start: usize, end: usize) -> (r: Vec<&T>)
        requires
            start <= end,
            end <= self.primary() + OVERFLOW_MAX + 1,
            forall|k: nat| start <= k < end ==> #[trigger] self.cells().contains_key(k),
        ensures
            r@.len() == end - start,
            forall|i: int| 0 <= i < r@.len() ==> *#[trigger] r@[i] == self.cells()[(start + i) as nat],
    {
        self.arr.slice(start..end).collect()
    }
}

impl<T: Default> Segments<T> {
    /// Relies on `SegmentedArr::with_capacity`: a primary region of exactly
    /// `capacity` default slots and no overflow bucket.
    #[verifier::external_body]
    pub(crate) fn with_capacity(capacity: usize) -> (r: Self)
        requires
            fits_exactly::<T>(capacity as int),
        ensures
            r.wf(),
            r.primary() == capacity,
            forall|k: nat| #[trigger] r.cells().contains_key(k) <==> k < capacity,
    {
        Segments { arr: SegmentedArr::with_capacity(capacity), cells: Ghost(Map::empty()), primary: Ghost(0) }
    }

    /// Relies on `SegmentedArr::alloc`: materialises the slot (a slot past the
    /// primary region brings in its whole bucket, default-filled) and hands it
    /// out for writing. A slot that is already materialised (every slot of the
    /// primary region is) allocates nothing.
    #[verifier::external_body]
    pub(crate) fn touch(&mut self, index: usize) -> (r: &mut T)
        requires
            old(self).wf(),
            index <= old(self).primary() + OVERFLOW_MAX,
        ensures
            final(self).wf(),
            final(self).primary() == old(self).primary(),
            old(self).cells().contains_key(index as nat) ==> *r == old(self).cells()[index as nat],
            final(self).cells().contains_key(index as nat),
            final(self).cells()[index as nat] == *final(r),
            forall|k: nat| old(self).cells().contains_key(k) ==> #[trigger] final(self).cells().contains_key(k),
            forall|k: nat| k != index && old(self).cells().contains_key(k)
                ==> #[trigger] final(self).cells()[k] == old(self).cells()[k],
            old(self).cells().contains_key(index as nat) ==> final(self).cells().dom() == old(self).cells().dom(),
            old(self).cells().contains_key(index as nat) ==> final(self).cells() == old(self).cells().insert(index as nat, *final(r)),
    {
        self.arr.alloc(index)
    }

    /// Relies on `SegmentedArr::settle`: the first `len` slots keep their
    /// values and move into a primary region of at least `len + additional`
    /// slots (never shrinking); every overflow bucket is released, and gaps and
    /// fresh slots hold defaults.
    #[verifier::external_body]
    pub(crate) fn settle(&mut self, len: usize, additional: usize)
        requires
            old(self).wf(),
            len + additional <= usize::MAX,
            fits_growth::<T>(old(self).primary() + len + additional),
        ensures
            final(self).wf(),
            final(self).primary() >= old(self).primary(),
            final(self).primary() >= len + additional,
            forall|k: nat| #[trigger] final(self).cells().contains_key(k) <==> k < final(self).primary(),
            forall|k: nat| k < len && old(self).cells().contains_key(k)
                ==> #[trigger] final(self).cells()[k] == old(self).cells()[k],
    {
        self.arr.settle(len, additional)
    }

    /// Relies on `SegmentedArr::clear`: drops every value and bucket and leaves
    /// a primary region of `max(len + additional, old primary)` default slots.
    #[verifier::external_body]
    pub(crate) fn clear(&mut self, len: usize, additional: usize)
        requires
            old(self).wf(),
            len + additional <= usize::MAX,
            fits_growth::<T>(old(self).primary() + len + additional),
        ensures
            final(self).wf(),
            final(self).primary() == if len + additional >= old(self).primary() {
                (len + additional) as nat
            } else {
                old(self).primary()
            },
            forall|k: nat| #[trigger] final(self).cells().contains_key(k) <==> k < final(self).primary(),
    {
        self.arr.clear(len, additional)
    }
}

} // verus!
