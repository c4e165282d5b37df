//! The consuming iterator: it owns the buffer of the container it came from
//! and hands the elements out from either end.

use vstd::prelude::*;
use crate::buffer::{elements, live_range, Buffer};

verus! {

/// An iterator that owns its elements. Its view is the sequence of the
/// elements not handed out yet, in the order in which the container held
/// them.
#[derive(Debug)]
pub struct IntoIter<T> {
    buf: Buffer<T>,
    front: usize,
    back: usize,
}

impl<T> View for IntoIter<T> {
    type V = Seq<T>;

    closed spec fn view(&self) -> Seq<T> {
        elements(self.buf@, self.front as int, self.back as int)
    }
}

impl<T> IntoIter<T> {
    /// The invariant: exactly the slots between the two cursors hold an
    /// element.
    pub closed spec fn wf(&self) -> bool {
        live_range(self.buf@, self.front as int, self.back as int)
    }

    /// The number of slots in the buffer that the iterator took over.
    pub closed spec fn spec_capacity(&self) -> nat {
        self.buf@.len()
    }

    /// An iterator over the elements in the first `len` slots of `buf`.
    pub(crate) fn over(buf: Buffer<T>, len: usize) -> (iter: Self)
        requires
            live_range(buf@, 0, len as int),
        ensures
            iter.wf(),
            iter@ == elements(buf@, 0, len as int),
            iter.spec_capacity() == buf@.len(),
    {
        IntoIter { buf, front: 0, back: len }
    }

    /// The number of slots in the buffer. It stays what the container had.
    pub fn capacity(&self) -> (capacity: usize)
        ensures
            capacity == self.spec_capacity(),
    {
        self.buf.capacity()
    }

    /// Hands out the first remaining element, or `None` where none remains.
    pub fn next(&mut self) -> (item: Option<T>)
        requires
            old(self).wf(),
        ensures
            final(self).wf(),
            final(self).spec_capacity() == old(self).spec_capacity(),
            old(self)@.len() == 0 ==> item is None && final(self)@ == old(self)@,
            old(self)@.len() > 0 ==> item == Some(old(self)@.first()) && final(self)@ == old(
                self,
            )@.drop_first(),
    {
        if self.front == self.back {
            None
        } else {
            let item = self.buf.take(self.front);
            self.front += 1;
            Some(item)
        }
    }

    /// Hands out the last remaining element, or `None` where none remains.
    pub fn next_back(&mut self) -> (item: Option<T>)
        requires
            old(self).wf(),
        ensures
            final(self).wf(),
            final(self).spec_capacity() == old(self).spec_capacity(),
            old(self)@.len() == 0 ==> item is None && final(self)@ == old(self)@,
            old(self)@.len() > 0 ==> item == Some(old(self)@.last()) && final(self)@ == old(
                self,
            )@.drop_last(),
    {
        if self.front == self.back {
            None
        } else {
            self.back -= 1;
            let item = self.buf.take(self.back);
            Some(item)
        }
    }

    /// The number of remaining elements, as an exact lower and upper bound.
    pub fn size_hint(&self) -> (bounds: (usize, Option<usize>))
        requires
            self.wf(),
        ensures
            bounds.0 == self@.len(),
            bounds.1 == Some(bounds.0),
    {
        let remaining: usize = self.back - self.front;
        (remaining, Some(remaining))
    }

    /// Hands out every remaining element, first to last.
    pub fn collect(self) -> (items: Vec<T>)
        requires
            self.wf(),
        ensures
            items@ == self@,
    {
        let mut iter = self;
        let mut items: Vec<T> = Vec::new();
        loop
            invariant
                iter.wf(),
                items@ + iter@ == self@,
            ensures
                items@ == self@,
            decreases iter@.len(),
        {
            match iter.next() {
                Some(item) => {
                    items.push(item);
                },
                None => {
                    break ;
                },
            }
        }
        items
    }

    /// Hands out every remaining element, last to first.
    pub fn collect_rev(self) -> (items: Vec<T>)
        requires
            self.wf(),
        ensures
            items@ == self@.reverse(),
    {
        let mut iter = self;
        let mut items: Vec<T> = Vec::new();
        loop
            invariant
                iter.wf(),
                iter@ + items@.reverse() == self@,
            ensures
                items@ == self@.reverse(),
            decreases iter@.len(),
        {
            match iter.next_back() {
                Some(item) => {
                    items.push(item);
                },
                None => {
                    break ;
                },
            }
        }
        items
    }
}

} // verus!
