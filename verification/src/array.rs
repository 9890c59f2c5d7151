//! The growable, contiguous sequence container.

use vstd::prelude::*;

use crate::buffer::{grown_capacity, growth_overflows, initial_capacity, RawBuffer};
use crate::iter::{Drain, IntoIter};
use crate::ArrayError;

verus! {

/// A growable, contiguous dynamic array of elements of `T`.
///
/// The container pairs a [`RawBuffer`], which accounts for the allocation
/// and its growth, with the initialized elements themselves, held as the
/// prefix of the block in insertion order. The number of live elements (the
/// length) never exceeds the buffer's capacity; slots beyond the length are
/// uninitialized and are never read, dropped, or handed out. The element
/// storage is kept by the standard vector, which performs the actual
/// allocator calls; the buffer carries the capacity and growth contract
/// that this container maintains alongside it.
///
/// The view of a `Vec` is the sequence of its live elements, in
/// order.
pub struct Vec<T> {
    buf: RawBuffer<T>,
    data: std::vec::Vec<T>,
}

impl<T> View for Vec<T> {
    type V = Seq<T>;

    closed spec fn view(&self) -> Seq<T> {
        self.data@
    }
}

impl<T> Vec<T> {
    /// The capacity the container's buffer accounts for.
    pub closed spec fn cap_spec(&self) -> usize {
        self.buf.cap_spec()
    }

    /// The container's invariant: its buffer is well formed and the live
    /// elements fit within the accounted capacity.
    pub closed spec fn well_formed(&self) -> bool {
        &&& self.buf.well_formed()
        &&& self@.len() <= self.cap_spec()
    }

    /// An empty container. No allocation is made; the first push performs
    /// the first real allocation.
    pub fn new() -> (r: Self)
        ensures
            r.well_formed(),
            r@ == Seq::<T>::empty(),
            r.cap_spec() == initial_capacity::<T>(),
    {
        Vec { buf: RawBuffer::new(), data: std::vec::Vec::new() }
    }

    /// The number of live elements.
    pub fn len(&self) -> (l: usize)
        ensures
            l == self@.len(),
    {
        self.data.len()
    }

    /// The number of elements the current allocation can hold.
    pub fn cap(&self) -> (c: usize)
        ensures
            c == self.cap_spec(),
    {
        self.buf.capacity()
    }

    /// Read the element at `index`.
    pub fn get(&self, index: usize) -> (r: &T)
        requires
            index < self@.len(),
        ensures
            *r == self@[index as int],
    {
        &self.data[index]
    }

    /// Overwrite the element at `index`, dropping the old value.
    pub fn set(&mut self, index: usize, value: T)
        requires
            old(self).well_formed(),
            index < old(self)@.len(),
        ensures
            final(self).well_formed(),
            final(self)@ == old(self)@.update(index as int, value),
            final(self).cap_spec() == old(self).cap_spec(),
    {
        self.data.set(index, value);
    }

    /// The live elements as a plain slice, front to back.
    pub fn as_slice(&self) -> (s: &[T])
        ensures
            s@ == self@,
    {
        self.data.as_slice()
    }

    /// Append `value` at the back, growing the buffer by one doubling step
    /// when it is full.
    ///
    /// The only reportable failure is [`ArrayError::CapacityOverflow`]:
    /// the container is full and one growth step cannot make room, which
    /// needs an element count beyond what `usize` represents. The value is
    /// discarded in that case and the container is left unchanged. An
    /// allocator that cannot satisfy a growth request fails fatally and
    /// never reports back here.
    pub fn push(&mut self, value: T) -> (r: Result<(), ArrayError>)
        requires
            old(self).well_formed(),
        ensures
            final(self).well_formed(),
            r is Ok <==> !(old(self)@.len() == old(self).cap_spec()
                && growth_overflows::<T>(old(self).cap_spec())),
            r is Ok ==> {
                &&& final(self)@ == old(self)@.push(value)
                &&& final(self).cap_spec() == if old(self)@.len() < old(self).cap_spec() {
                    old(self).cap_spec() as int
                } else {
                    grown_capacity(old(self).cap_spec())
                }
            },
            r is Err ==> {
                &&& r == Err::<(), ArrayError>(ArrayError::CapacityOverflow)
                &&& final(self)@ == old(self)@
                &&& final(self).cap_spec() == old(self).cap_spec()
            },
    {
        if self.data.len() == self.buf.capacity() {
            match self.buf.grow() {
                Ok(()) => {},
                Err(e) => {
                    return Err(e);
                },
            }
        }
        self.data.push(value);
        Ok(())
    }

    /// Remove and return the last element, or `None` when the container is
    /// empty. The capacity never shrinks.
    pub fn pop(&mut self) -> (r: Option<T>)
        requires
            old(self).well_formed(),
        ensures
            final(self).well_formed(),
            final(self).cap_spec() == old(self).cap_spec(),
            old(self)@.len() == 0 ==> r is None && final(self)@ == old(self)@,
            old(self)@.len() > 0 ==> {
                &&& r == Some(old(self)@.last())
                &&& final(self)@ == old(self)@.drop_last()
            },
    {
        self.data.pop()
    }

    /// Insert `value` at `index`, shifting the elements at `[index, len)`
    /// one slot to the right.
    ///
    /// Fails with [`ArrayError::IndexOutOfBounds`] when `index > len`, and
    /// with [`ArrayError::CapacityOverflow`] exactly as [`Self::push`]
    /// does; either failure leaves the container unchanged and discards the
    /// value.
    pub fn insert(&mut self, index: usize, value: T) -> (r: Result<(), ArrayError>)
        requires
            old(self).well_formed(),
        ensures
            final(self).well_formed(),
            index > old(self)@.len() ==> {
                &&& r == Err::<(), ArrayError>(ArrayError::IndexOutOfBounds)
                &&& final(self)@ == old(self)@
                &&& final(self).cap_spec() == old(self).cap_spec()
            },
            index <= old(self)@.len() ==> {
                &&& (r is Ok <==> !(old(self)@.len() == old(self).cap_spec()
                    && growth_overflows::<T>(old(self).cap_spec())))
                &&& (r is Ok ==> {
                    &&& final(self)@ == old(self)@.insert(index as int, value)
                    &&& final(self).cap_spec() == if old(self)@.len() < old(self).cap_spec() {
                        old(self).cap_spec() as int
                    } else {
                        grown_capacity(old(self).cap_spec())
                    }
                })
                &&& (r is Err ==> {
                    &&& r == Err::<(), ArrayError>(ArrayError::CapacityOverflow)
                    &&& final(self)@ == old(self)@
                    &&& final(self).cap_spec() == old(self).cap_spec()
                })
            },
    {
        if index > self.data.len() {
            return Err(ArrayError::IndexOutOfBounds);
        }
        if self.data.len() == self.buf.capacity() {
            match self.buf.grow() {
                Ok(()) => {},
                Err(e) => {
                    return Err(e);
                },
            }
        }
        self.data.insert(index, value);
        Ok(())
    }

    /// Remove and return the element at `index`, shifting the elements at
    /// `[index + 1, len)` one slot to the left.
    ///
    /// Fails with [`ArrayError::IndexOutOfBounds`] when `index >= len`,
    /// leaving the container unchanged. The capacity never shrinks.
    pub fn remove(&mut self, index: usize) -> (r: Result<T, ArrayError>)
        requires
            old(self).well_formed(),
        ensures
            final(self).well_formed(),
            final(self).cap_spec() == old(self).cap_spec(),
            index >= old(self)@.len() ==> {
                &&& r == Err::<T, ArrayError>(ArrayError::IndexOutOfBounds)
                &&& final(self)@ == old(self)@
            },
            index < old(self)@.len() ==> {
                &&& r == Ok::<T, ArrayError>(old(self)@[index as int])
                &&& final(self)@ == old(self)@.remove(index as int)
            },
    {
        if index >= self.data.len() {
            return Err(ArrayError::IndexOutOfBounds);
        }
        Ok(self.data.remove(index))
    }

    /// Turn the whole container into a double-ended iterator that owns the
    /// elements and the buffer behind them; the allocation is given back
    /// once the iterator (and every element it still holds) is dropped.
    pub fn into_iter(self) -> (it: IntoIter<T>)
        ensures
            it@ == self@,
    {
        let Vec { buf, data } = self;
        IntoIter::from_parts(buf, data)
    }

    /// Remove every element, yielding them through a double-ended
    /// iterator, while the container keeps its buffer: afterwards the
    /// length is zero and the capacity is unchanged, ready for reuse.
    pub fn drain(&mut self) -> (d: Drain<T>)
        requires
            old(self).well_formed(),
        ensures
            final(self).well_formed(),
            final(self)@ == Seq::<T>::empty(),
            final(self).cap_spec() == old(self).cap_spec(),
            d@ == old(self)@,
    {
        let mut taken: std::vec::Vec<T> = std::vec::Vec::new();
        core::mem::swap(&mut self.data, &mut taken);
        Drain::from_elems(taken)
    }
}

impl<T> Default for Vec<T> {
    /// The same empty container as [`Vec::new`].
    fn default() -> (r: Self)
        ensures
            r.well_formed(),
            r@ == Seq::<T>::empty(),
            r.cap_spec() == initial_capacity::<T>(),
    {
        Vec::new()
    }
}

/// After a push the view is the old view with the value appended; this
/// lemma spells out that appending counts the push and keeps every earlier
/// element at its index. So any sequence of pushes, starting from the empty
/// container, ends with the length equal to the number of pushes and index
/// `i` holding the `i`-th pushed value.
pub proof fn lemma_push_keeps_order<T>(s: Seq<T>, v: T)
    ensures
        s.push(v).len() == s.len() + 1,
        s.push(v)[s.len() as int] == v,
        forall|i: int| 0 <= i < s.len() ==> s.push(v)[i] == s[i],
{
}

/// A push followed by a pop returns the value just pushed and restores the
/// prior sequence of elements, whatever the value and the prior state: a
/// pop after a push yields the appended last element and drops it back off.
pub proof fn lemma_push_pop_round_trip<T>(s: Seq<T>, v: T)
    ensures
        s.push(v).len() == s.len() + 1,
        s.push(v).last() == v,
        s.push(v).drop_last() == s,
{
    assert(s.push(v).drop_last() =~= s);
}

/// An insert at a valid index followed by a remove at the same index
/// returns the inserted value and restores the prior sequence of elements.
pub proof fn lemma_insert_remove_round_trip<T>(s: Seq<T>, i: int, v: T)
    requires
        0 <= i <= s.len(),
    ensures
        s.insert(i, v)[i] == v,
        s.insert(i, v).remove(i) == s,
{
    assert(s.insert(i, v).remove(i) =~= s);
}

} // verus!
