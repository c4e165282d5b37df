//! The general sequence container: elements sit in the first `len` slots of
//! a buffer, in order, and every other slot is empty.
//!
//! A slot holds an element or nothing, so the live slots are no `[T]` and
//! cannot be lent out as a slice. [`RawVec::to_refs`] lends all elements at
//! once, in order; [`RawVec::get`] and [`RawVec::get_mut`] lend one.

use vstd::prelude::*;
use crate::buffer::{elements, live_range, Buffer};
use crate::growth::{can_grow, capacity_with_room, next_capacity};
use crate::into_iter::IntoIter;
use crate::search::{compares_as, has_no_match, is_first_match};

verus! {

/// A growable sequence. Its view is the sequence of its elements.
#[derive(Debug)]
pub struct RawVec<T> {
    buf: Buffer<T>,
    len: usize,
}

impl<T> View for RawVec<T> {
    type V = Seq<T>;

    closed spec fn view(&self) -> Seq<T> {
        elements(self.buf@, 0, self.len as int)
    }
}

impl<T> RawVec<T> {
    /// The invariant: exactly the first `len` slots of the buffer hold an
    /// element.
    pub closed spec fn wf(&self) -> bool {
        live_range(self.buf@, 0, self.len as int)
    }

    /// The number of slots in the buffer.
    pub closed spec fn spec_capacity(&self) -> nat {
        self.buf@.len()
    }

    /// Whether one more element can be taken in: a slot is free, or the
    /// buffer may grow.
    pub open spec fn spec_has_room(&self) -> bool {
        self@.len() < self.spec_capacity() || can_grow::<Option<T>>(self.spec_capacity())
    }

    /// The length never exceeds the capacity, and both can be counted.
    pub proof fn lemma_len_within_capacity(&self)
        requires
            self.wf(),
        ensures
            self@.len() <= self.spec_capacity() <= usize::MAX,
    {
        self.buf.lemma_capacity_bounded();
    }

    /// An empty container. Nothing is allocated.
    pub fn new() -> (v: Self)
        ensures
            v.wf(),
            v@ == Seq::<T>::empty(),
            v.spec_capacity() == 0,
    {
        RawVec { buf: Buffer::new(), len: 0 }
    }

    /// The number of elements.
    pub fn len(&self) -> (len: usize)
        ensures
            len == self@.len(),
    {
        self.len
    }

    /// The number of slots.
    pub fn capacity(&self) -> (capacity: usize)
        ensures
            capacity == self.spec_capacity(),
    {
        self.buf.capacity()
    }

    /// Whether one more element can be taken in.
    #[verifier::when_used_as_spec(spec_has_room)]
    pub fn has_room(&self) -> (yes: bool)
        ensures
            yes == self.spec_has_room(),
    {
        self.len < self.buf.capacity() || self.buf.can_grow()
    }

    /// Grows the buffer to the next capacity. The elements stay as they are.
    pub fn grow(&mut self)
        requires
            old(self).wf(),
            can_grow::<Option<T>>(old(self).spec_capacity()),
        ensures
            final(self).wf(),
            final(self)@ == old(self)@,
            final(self).spec_capacity() == next_capacity(old(self).spec_capacity()),
    {
        self.buf.grow();
    }

    /// Appends `element`, growing the buffer first where it is full.
    pub fn push(&mut self, element: T)
        requires
            old(self).wf(),
            old(self).has_room(),
        ensures
            final(self).wf(),
            final(self)@ == old(self)@.push(element),
            final(self).spec_capacity() == capacity_with_room(
                old(self)@.len(),
                old(self).spec_capacity(),
            ),
    {
        if self.len == self.buf.capacity() {
            self.buf.grow();
        }
        self.buf.put(self.len, element);
        self.len += 1;
    }

    /// Takes the last element out, or returns `None` where there is none.
    pub fn pop(&mut self) -> (popped: Option<T>)
        requires
            old(self).wf(),
        ensures
            final(self).wf(),
            final(self).spec_capacity() == old(self).spec_capacity(),
            old(self)@.len() == 0 ==> popped is None && final(self)@ == old(self)@,
            old(self)@.len() > 0 ==> popped == Some(old(self)@.last()) && final(self)@ == old(
                self,
            )@.drop_last(),
    {
        if self.len == 0 {
            None
        } else {
            self.len -= 1;
            Some(self.buf.take(self.len))
        }
    }

    /// Inserts `element` before the element at `index`, or behind the last
    /// one where `index` is the length. The buffer grows first where it is
    /// full; then the elements from `index` on each move one slot up, the last
    /// one first.
    pub fn insert(&mut self, index: usize, element: T)
        requires
            old(self).wf(),
            index <= old(self)@.len(),
            old(self).has_room(),
        ensures
            final(self).wf(),
            final(self)@ == old(self)@.insert(index as int, element),
            final(self).spec_capacity() == capacity_with_room(
                old(self)@.len(),
                old(self).spec_capacity(),
            ),
    {
        if self.len == self.buf.capacity() {
            self.buf.grow();
        }
        let ghost before = self.buf@;
        let mut gap: usize = self.len;
        while gap > index
            invariant
                index <= gap <= self.len < before.len(),
                self.len == old(self).len,
                self.buf@.len() == before.len(),
                live_range(before, 0, self.len as int),
                forall|k: int| 0 <= k < gap ==> #[trigger] self.buf@[k] == before[k],
                self.buf@[gap as int] is None,
                forall|k: int| gap < k <= self.len ==> #[trigger] self.buf@[k] == before[k - 1],
                forall|k: int| self.len < k < before.len() ==> #[trigger] self.buf@[k] is None,
            decreases gap,
        {
            let moved = self.buf.take(gap - 1);
            self.buf.put(gap, moved);
            gap -= 1;
        }
        self.buf.put(index, element);
        self.len += 1;
    }

    /// Takes the element at `index` out and closes the gap: the elements
    /// behind it each move one slot down, the nearest one first.
    pub fn remove(&mut self, index: usize) -> (removed: T)
        requires
            old(self).wf(),
            index < old(self)@.len(),
        ensures
            final(self).wf(),
            removed == old(self)@[index as int],
            final(self)@ == old(self)@.remove(index as int),
            final(self).spec_capacity() == old(self).spec_capacity(),
    {
        let ghost before = self.buf@;
        let removed = self.buf.take(index);
        let mut gap: usize = index;
        while gap + 1 < self.len
            invariant
                index <= gap < self.len <= before.len(),
                self.len == old(self).len,
                self.buf@.len() == before.len(),
                live_range(before, 0, self.len as int),
                forall|k: int| 0 <= k < index ==> #[trigger] self.buf@[k] == before[k],
                forall|k: int| index <= k < gap ==> #[trigger] self.buf@[k] == before[k + 1],
                self.buf@[gap as int] is None,
                forall|k: int| gap < k < before.len() ==> #[trigger] self.buf@[k] == before[k],
            decreases self.len - gap,
        {
            let moved = self.buf.take(gap + 1);
            self.buf.put(gap, moved);
            gap += 1;
        }
        self.len -= 1;
        removed
    }

    /// The element at `index`, or `None` where `index` is not below the
    /// length.
    pub fn get(&self, index: usize) -> (element: Option<&T>)
        requires
            self.wf(),
        ensures
            index < self@.len() ==> element == Some(&self@[index as int]),
            index >= self@.len() ==> element is None,
    {
        if index < self.len {
            Some(self.buf.peek(index))
        } else {
            None
        }
    }

    /// The elements, each by reference, in order.
    pub fn to_refs(&self) -> (refs: Vec<&T>)
        requires
            self.wf(),
        ensures
            refs@.len() == self@.len(),
            forall|i: int| 0 <= i < self@.len() ==> *(#[trigger] refs@[i]) == self@[i],
    {
        let mut refs: Vec<&T> = Vec::with_capacity(self.len);
        let mut index: usize = 0;
        while index < self.len
            invariant
                self.wf(),
                index <= self.len,
                refs@.len() == index,
                forall|i: int| 0 <= i < index ==> *(#[trigger] refs@[i]) == self@[i],
            decreases self.len - index,
        {
            refs.push(self.buf.peek(index));
            index += 1;
        }
        refs
    }

    /// The element at `index`, to be changed in place.
    pub fn get_mut(&mut self, index: usize) -> (element: &mut T)
        requires
            old(self).wf(),
            index < old(self)@.len(),
        ensures
            *element == old(self)@[index as int],
            final(self).wf(),
            final(self)@ == old(self)@.update(index as int, *final(element)),
            final(self).spec_capacity() == old(self).spec_capacity(),
    {
        let element = self.buf.peek_mut(index);
        proof {
            assert(elements(
                old(self).buf@.update(index as int, Some(*final(element))),
                0,
                old(self).len as int,
            ) =~= old(self)@.update(index as int, *final(element)));
        }
        element
    }

    /// The first position whose element equals `element`, found by a scan
    /// from the front.
    pub fn position(&self, element: &T) -> (found: Option<usize>) where T: PartialEq
        requires
            self.wf(),
        ensures
            match found {
                Some(index) => is_first_match(self@, *element, index as int),
                None => has_no_match(self@, *element),
            },
    {
        let mut index: usize = 0;
        while index < self.len
            invariant
                self.wf(),
                index <= self.len,
                forall|j: int| 0 <= j < index ==> compares_as(#[trigger] self@[j], *element, false),
            decreases self.len - index,
        {
            if *self.buf.peek(index) == *element {
                return Some(index);
            }
            index += 1;
        }
        None
    }

    /// Removes the first element that equals `element` and returns it, or
    /// returns `None` and changes nothing where no element equals it.
    pub fn remove_by_value(&mut self, element: &T) -> (removed: Option<T>) where T: PartialEq
        requires
            old(self).wf(),
        ensures
            final(self).wf(),
            final(self).spec_capacity() == old(self).spec_capacity(),
            match removed {
                Some(value) => exists|index: int|
                    {
                        &&& 0 <= index < old(self)@.len()
                        &&& value == #[trigger] old(self)@[index]
                        &&& final(self)@ == old(self)@.remove(index)
                        &&& is_first_match(old(self)@, *element, index)
                    },
                None => {
                    &&& final(self)@ == old(self)@
                    &&& has_no_match(old(self)@, *element)
                },
            },
    {
        match self.position(element) {
            Some(index) => Some(self.remove(index)),
            None => None,
        }
    }

    /// Turns the container into an iterator that owns the buffer and hands
    /// the elements out in their order.
    pub fn into_iter(self) -> (iter: IntoIter<T>)
        requires
            self.wf(),
        ensures
            iter.wf(),
            iter@ == self@,
            iter.spec_capacity() == self.spec_capacity(),
    {
        IntoIter::over(self.buf, self.len)
    }
}

} // verus!
