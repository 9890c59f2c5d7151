//! Double-ended iteration over elements taken out of a container.

use vstd::prelude::*;

use crate::buffer::RawBuffer;

verus! {

/// A shrinking range of owned elements, consumed from either end.
///
/// This is the shared traversal engine of [`IntoIter`] and [`Drain`]: it
/// holds exactly the elements not yet yielded, a forward step takes the
/// front one and a backward step the back one, so the two ends converge
/// and every element is yielded exactly once. Its view is the sequence of
/// elements still to be yielded.
pub(crate) struct Cursor<T> {
    items: Vec<T>,
}

impl<T> View for Cursor<T> {
    type V = Seq<T>;

    closed spec fn view(&self) -> Seq<T> {
        self.items@
    }
}

impl<T> Cursor<T> {
    /// A cursor over all of `items`, front first.
    pub(crate) fn from_elems(items: Vec<T>) -> (c: Self)
        ensures
            c@ == items@,
    {
        Cursor { items }
    }

    /// Yield the front element of the remaining range, or `None` once the
    /// range is exhausted.
    pub fn next(&mut self) -> (r: Option<T>)
        ensures
            old(self)@.len() == 0 ==> r is None && final(self)@ == old(self)@,
            old(self)@.len() > 0 ==> {
                &&& r == Some(old(self)@.first())
                &&& final(self)@ == old(self)@.drop_first()
            },
    {
        if self.items.len() == 0 {
            None
        } else {
            let v = self.items.remove(0);
            proof {
                assert(old(self)@.remove(0) =~= old(self)@.drop_first());
            }
            Some(v)
        }
    }

    /// Yield the back element of the remaining range, or `None` once the
    /// range is exhausted.
    pub fn next_back(&mut self) -> (r: Option<T>)
        ensures
            old(self)@.len() == 0 ==> r is None && final(self)@ == old(self)@,
            old(self)@.len() > 0 ==> {
                &&& r == Some(old(self)@.last())
                &&& final(self)@ == old(self)@.drop_last()
            },
    {
        self.items.pop()
    }

    /// The exact number of elements still to be yielded, as a lower and
    /// upper bound.
    pub fn size_hint(&self) -> (r: (usize, Option<usize>))
        ensures
            r.0 == self@.len(),
            r.1 == Some(r.0),
    {
        let n = self.items.len();
        (n, Some(n))
    }
}

/// A double-ended iterator that owns what was a whole container: the
/// elements still to be yielded and the buffer that backed them.
///
/// The buffer rides along untouched so that its allocation is given back
/// only when the iterator itself is dropped — after every element still in
/// the range has been dropped. Its view is the sequence of elements still
/// to be yielded.
pub struct IntoIter<T> {
    #[allow(dead_code)]
    buf: RawBuffer<T>,
    cursor: Cursor<T>,
}

impl<T> View for IntoIter<T> {
    type V = Seq<T>;

    closed spec fn view(&self) -> Seq<T> {
        self.cursor@
    }
}

impl<T> IntoIter<T> {
    /// Take over a container's buffer and elements.
    pub(crate) fn from_parts(buf: RawBuffer<T>, elems: Vec<T>) -> (it: Self)
        ensures
            it@ == elems@,
    {
        IntoIter { buf, cursor: Cursor::from_elems(elems) }
    }

    /// Yield the front element of the remaining range, or `None` once the
    /// range is exhausted.
    pub fn next(&mut self) -> (r: Option<T>)
        ensures
            old(self)@.len() == 0 ==> r is None && final(self)@ == old(self)@,
            old(self)@.len() > 0 ==> {
                &&& r == Some(old(self)@.first())
                &&& final(self)@ == old(self)@.drop_first()
            },
    {
        self.cursor.next()
    }

    /// Yield the back element of the remaining range, or `None` once the
    /// range is exhausted.
    pub fn next_back(&mut self) -> (r: Option<T>)
        ensures
            old(self)@.len() == 0 ==> r is None && final(self)@ == old(self)@,
            old(self)@.len() > 0 ==> {
                &&& r == Some(old(self)@.last())
                &&& final(self)@ == old(self)@.drop_last()
            },
    {
        self.cursor.next_back()
    }

    /// The exact number of elements still to be yielded, as a lower and
    /// upper bound.
    pub fn size_hint(&self) -> (r: (usize, Option<usize>))
        ensures
            r.0 == self@.len(),
            r.1 == Some(r.0),
    {
        self.cursor.size_hint()
    }
}

/// A double-ended iterator over elements removed from a borrowed container.
///
/// The container hands over every element and keeps its emptied buffer, so
/// its allocation stays in place for reuse; if the drain is dropped before
/// exhaustion, the elements still in the range are dropped with it and the
/// container stays empty. Its view is the sequence of elements still to be
/// yielded.
pub struct Drain<T> {
    cursor: Cursor<T>,
}

impl<T> View for Drain<T> {
    type V = Seq<T>;

    closed spec fn view(&self) -> Seq<T> {
        self.cursor@
    }
}

impl<T> Drain<T> {
    /// Take over the elements removed from a container.
    pub(crate) fn from_elems(elems: Vec<T>) -> (d: Self)
        ensures
            d@ == elems@,
    {
        Drain { cursor: Cursor::from_elems(elems) }
    }

    /// Yield the front element of the remaining range, or `None` once the
    /// range is exhausted.
    pub fn next(&mut self) -> (r: Option<T>)
        ensures
            old(self)@.len() == 0 ==> r is None && final(self)@ == old(self)@,
            old(self)@.len() > 0 ==> {
                &&& r == Some(old(self)@.first())
                &&& final(self)@ == old(self)@.drop_first()
            },
    {
        self.cursor.next()
    }

    /// Yield the back element of the remaining range, or `None` once the
    /// range is exhausted.
    pub fn next_back(&mut self) -> (r: Option<T>)
        ensures
            old(self)@.len() == 0 ==> r is None && final(self)@ == old(self)@,
            old(self)@.len() > 0 ==> {
                &&& r == Some(old(self)@.last())
                &&& final(self)@ == old(self)@.drop_last()
            },
    {
        self.cursor.next_back()
    }

    /// The exact number of elements still to be yielded, as a lower and
    /// upper bound.
    pub fn size_hint(&self) -> (r: (usize, Option<usize>))
        ensures
            r.0 == self@.len(),
            r.1 == Some(r.0),
    {
        self.cursor.size_hint()
    }
}

/// One step from either end accounts for the whole remaining range: a
/// forward step yields exactly the first element and leaves the rest, a
/// backward step yields exactly the last and leaves the rest. Hence over
/// any interleaving of forward and backward steps, every element of the
/// original range is yielded exactly once — none is repeated and none is
/// skipped.
pub proof fn lemma_step_partitions_range<T>(r: Seq<T>)
    requires
        r.len() > 0,
    ensures
        seq![r.first()] + r.drop_first() == r,
        r.drop_last() + seq![r.last()] == r,
{
    assert(seq![r.first()] + r.drop_first() =~= r);
    assert(r.drop_last() + seq![r.last()] =~= r);
}

} // verus!
