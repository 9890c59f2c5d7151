//! Capacity bookkeeping for one contiguous allocation.

use core::marker::PhantomData;
use vstd::prelude::*;

use crate::ArrayError;

verus! {

/// The size in bytes of one element of type `T`.
pub open spec fn elem_size<T>() -> nat {
    vstd::layout::size_of::<T>()
}

/// The capacity a fresh buffer reports before any allocation: unbounded
/// (`usize::MAX` as a sentinel) for zero-sized elements, which occupy no
/// memory at all, and zero otherwise.
pub open spec fn initial_capacity<T>() -> usize {
    if elem_size::<T>() == 0 {
        usize::MAX
    } else {
        0
    }
}

/// Whether one growth step from capacity `cap` is impossible: always for
/// zero-sized elements (their capacity is already the unbounded sentinel,
/// so asking for more is a logic error), and otherwise when the doubled
/// capacity would not fit in `usize`.
pub open spec fn growth_overflows<T>(cap: usize) -> bool {
    elem_size::<T>() == 0 || cap > usize::MAX / 2
}

/// The capacity after one growth step: the first real allocation holds a
/// single element, and every later step doubles.
pub open spec fn grown_capacity(cap: usize) -> int {
    if cap == 0 {
        1
    } else {
        2 * cap
    }
}

/// Bookkeeping for a contiguous block able to hold `cap` elements of `T`.
///
/// The buffer accounts for allocating, growing (by doubling) and releasing
/// the block; it has no notion of how many slots hold live elements — the
/// owning container tracks that separately. The bytes themselves live with
/// the global allocator; this type carries the capacity contract that every
/// operation on the block must respect.
pub struct RawBuffer<T> {
    cap: usize,
    elem: PhantomData<T>,
}

impl<T> RawBuffer<T> {
    /// The number of elements the current allocation can hold.
    pub closed spec fn cap_spec(&self) -> usize {
        self.cap
    }

    /// A buffer for zero-sized elements always reports the unbounded
    /// sentinel capacity; no real allocation ever backs it.
    pub open spec fn well_formed(&self) -> bool {
        elem_size::<T>() == 0 ==> self.cap_spec() == usize::MAX
    }

    /// A fresh buffer with no allocation behind it.
    pub fn new() -> (r: Self)
        ensures
            r.well_formed(),
            r.cap_spec() == initial_capacity::<T>(),
    {
        let cap: usize = if core::mem::size_of::<T>() == 0 {
            usize::MAX
        } else {
            0
        };
        RawBuffer { cap, elem: PhantomData }
    }

    /// Read the capacity.
    pub fn capacity(&self) -> (c: usize)
        ensures
            c == self.cap_spec(),
    {
        self.cap
    }

    /// One growth step, to be taken when the owner is about to add an
    /// element beyond the current capacity.
    ///
    /// For zero-sized elements capacity is already unbounded, so needing to
    /// grow means the element count itself has run out of room; that, and a
    /// doubling that would not fit in `usize`, are reported as
    /// [`ArrayError::CapacityOverflow`]. An allocator that cannot satisfy
    /// the enlarged request fails fatally and never reports back here.
    pub fn grow(&mut self) -> (r: Result<(), ArrayError>)
        requires
            old(self).well_formed(),
        ensures
            final(self).well_formed(),
            growth_overflows::<T>(old(self).cap_spec()) ==> {
                &&& r == Err::<(), ArrayError>(ArrayError::CapacityOverflow)
                &&& final(self).cap_spec() == old(self).cap_spec()
            },
            !growth_overflows::<T>(old(self).cap_spec()) ==> {
                &&& r == Ok::<(), ArrayError>(())
                &&& final(self).cap_spec() == grown_capacity(old(self).cap_spec())
            },
    {
        if core::mem::size_of::<T>() == 0 {
            return Err(ArrayError::CapacityOverflow);
        }
        if self.cap > usize::MAX / 2 {
            return Err(ArrayError::CapacityOverflow);
        }
        self.cap = if self.cap == 0 {
            1
        } else {
            self.cap * 2
        };
        Ok(())
    }

    /// Give the allocation back.
    ///
    /// A no-op when the capacity is zero (nothing was ever allocated) or
    /// when elements are zero-sized (nothing real backs the sentinel
    /// capacity); otherwise the block is returned to the allocator and the
    /// buffer reports capacity zero again.
    pub fn release(&mut self)
        requires
            old(self).well_formed(),
        ensures
            final(self).well_formed(),
            elem_size::<T>() == 0 ==> final(self).cap_spec() == old(self).cap_spec(),
            elem_size::<T>() != 0 ==> final(self).cap_spec() == 0,
    {
        if core::mem::size_of::<T>() != 0 {
            self.cap = 0;
        }
    }
}

} // verus!
