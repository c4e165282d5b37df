//! A last-in, first-out stack: the sequence container, reached only at its
//! end.

use vstd::prelude::*;
use crate::growth::{can_grow, capacity_with_room, next_capacity};
use crate::raw_vec::RawVec;

verus! {

/// A stack. Its view is the sequence of its elements, the top last.
#[derive(Debug)]
pub struct Stack<T> {
    items: RawVec<T>,
}

impl<T> View for Stack<T> {
    type V = Seq<T>;

    closed spec fn view(&self) -> Seq<T> {
        self.items@
    }
}

impl<T> Stack<T> {
    /// The invariant of the container underneath.
    pub closed spec fn wf(&self) -> bool {
        self.items.wf()
    }

    /// The number of slots in the buffer.
    pub closed spec fn spec_capacity(&self) -> nat {
        self.items.spec_capacity()
    }

    /// Whether one more element can be taken in: a slot is free, or the
    /// buffer may grow.
    pub open spec fn spec_has_room(&self) -> bool {
        self@.len() < self.spec_capacity() || can_grow::<Option<T>>(self.spec_capacity())
    }

    /// The length never exceeds the capacity, and both can be counted.
    pub proof fn lemma_len_within_capacity(&self)
        requires
            self.wf(),
        ensures
            self@.len() <= self.spec_capacity() <= usize::MAX,
    {
        self.items.lemma_len_within_capacity();
    }

    /// An empty stack. Nothing is allocated.
    pub fn new() -> (stack: Self)
        ensures
            stack.wf(),
            stack@ == Seq::<T>::empty(),
            stack.spec_capacity() == 0,
    {
        Stack { items: RawVec::new() }
    }

    /// The number of elements.
    pub fn len(&self) -> (len: usize)
        ensures
            len == self@.len(),
    {
        self.items.len()
    }

    /// The number of slots.
    pub fn capacity(&self) -> (capacity: usize)
        ensures
            capacity == self.spec_capacity(),
    {
        self.items.capacity()
    }

    /// Whether one more element can be taken in.
    #[verifier::when_used_as_spec(spec_has_room)]
    pub fn has_room(&self) -> (yes: bool)
        ensures
            yes == self.spec_has_room(),
    {
        self.items.has_room()
    }

    /// Grows the buffer to the next capacity. The elements stay as they are.
    pub fn grow(&mut self)
        requires
            old(self).wf(),
            can_grow::<Option<T>>(old(self).spec_capacity()),
        ensures
            final(self).wf(),
            final(self)@ == old(self)@,
            final(self).spec_capacity() == next_capacity(old(self).spec_capacity()),
    {
        self.items.grow();
    }

    /// Puts `item` on top, growing the buffer first where it is full.
    pub fn push(&mut self, item: T)
        requires
            old(self).wf(),
            old(self).has_room(),
        ensures
            final(self).wf(),
            final(self)@ == old(self)@.push(item),
            final(self).spec_capacity() == capacity_with_room(
                old(self)@.len(),
                old(self).spec_capacity(),
            ),
    {
        self.items.push(item);
    }

    /// Takes the top element off, or returns `None` where the stack is
    /// empty.
    pub fn pop(&mut self) -> (popped: Option<T>)
        requires
            old(self).wf(),
        ensures
            final(self).wf(),
            final(self).spec_capacity() == old(self).spec_capacity(),
            old(self)@.len() == 0 ==> popped is None && final(self)@ == old(self)@,
            old(self)@.len() > 0 ==> popped == Some(old(self)@.last()) && final(self)@ == old(
                self,
            )@.drop_last(),
    {
        self.items.pop()
    }
}

} // verus!
