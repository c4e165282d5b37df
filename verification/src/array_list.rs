//! The explicit-length variant of the sequence container: every slot holds
//! a value at all times, and a slot beyond the length holds a default value
//! in place of nothing. It differs from the general container in that
//! alone: a new list has no slot, the slots double on demand, and an index
//! out of range is an error of the caller.

use vstd::prelude::*;
use crate::growth::{can_grow, capacity_with_room, grown_capacity, next_capacity};
use crate::search::{compares_as, has_no_match, is_first_match};

verus! {

/// Whether `value` is a default value of `T`.
pub open spec fn is_default<T: Default>(value: T) -> bool {
    call_ensures(T::default, (), value)
}

/// A growable sequence of plain values. Its view is the sequence of its
/// elements.
#[derive(Debug)]
pub struct ArrayList<T> {
    length: usize,
    inner: Vec<T>,
}

impl<T> View for ArrayList<T> {
    type V = Seq<T>;

    closed spec fn view(&self) -> Seq<T> {
        Seq::new(self.length as nat, |i: int| self.inner@[i])
    }
}

impl<T: Default + Copy + PartialEq> ArrayList<T> {
    /// The invariant: the length is within the slots, and every slot beyond
    /// it holds a default value.
    pub closed spec fn wf(&self) -> bool {
        &&& self.length <= self.inner@.len()
        &&& forall|i: int| self.length <= i < self.inner@.len() ==> is_default(#[trigger] self.inner@[i])
    }

    /// The number of slots.
    pub closed spec fn spec_capacity(&self) -> nat {
        self.inner@.len()
    }

    /// Whether one more element can be taken in: a slot is free, or the
    /// slots may double.
    pub open spec fn spec_has_room(&self) -> bool {
        self@.len() < self.spec_capacity() || can_grow::<T>(self.spec_capacity())
    }

    /// The length never exceeds the capacity, and both can be counted.
    pub proof fn lemma_len_within_capacity(&self)
        requires
            self.wf(),
        ensures
            self@.len() <= self.spec_capacity() <= usize::MAX,
    {
        assert(self.inner.len() == self.inner@.len());
    }

    /// An empty list. Nothing is allocated.
    pub fn new() -> (list: Self)
        ensures
            list.wf(),
            list@ == Seq::<T>::empty(),
            list.spec_capacity() == 0,
    {
        ArrayList { length: 0, inner: Vec::new() }
    }

    /// The number of elements.
    pub fn len(&self) -> (len: usize)
        ensures
            len == self@.len(),
    {
        self.length
    }

    /// The number of slots.
    pub fn capacity(&self) -> (capacity: usize)
        ensures
            capacity == self.spec_capacity(),
    {
        self.inner.len()
    }

    /// Whether one more element can be taken in.
    #[verifier::when_used_as_spec(spec_has_room)]
    pub fn has_room(&self) -> (yes: bool)
        ensures
            yes == self.spec_has_room(),
    {
        self.length < self.inner.len() || grown_capacity::<T>(self.inner.len()).is_some()
    }

    /// Grows the slots to the next capacity: every slot is copied to the
    /// same index of the new slots, and the slots that are added hold a
    /// default value.
    pub fn grow_inner(&mut self)
        requires
            old(self).wf(),
            can_grow::<T>(old(self).spec_capacity()),
        ensures
            final(self).wf(),
            final(self)@ == old(self)@,
            final(self).spec_capacity() == next_capacity(old(self).spec_capacity()),
    {
        let capacity: usize = self.inner.len();
        let target: usize = grown_capacity::<T>(capacity).unwrap();
        let mut new: Vec<T> = Vec::with_capacity(target);
        while new.len() < capacity
            invariant
                capacity == self.inner@.len(),
                new@.len() <= capacity,
                new@ == self.inner@.subrange(0, new@.len() as int),
            decreases capacity - new@.len(),
        {
            new.push(self.inner[new.len()]);
        }
        while new.len() < target
            invariant
                capacity == self.inner@.len(),
                capacity <= new@.len() <= target,
                forall|i: int| 0 <= i < capacity ==> #[trigger] new@[i] == self.inner@[i],
                forall|i: int| capacity <= i < new@.len() ==> is_default(#[trigger] new@[i]),
            decreases target - new@.len(),
        {
            new.push(T::default());
        }
        self.inner = new;
    }

    /// Appends `item`, growing the slots first where they are full.
    pub fn append(&mut self, item: T)
        requires
            old(self).wf(),
            old(self).has_room(),
        ensures
            final(self).wf(),
            final(self)@ == old(self)@.push(item),
            final(self).spec_capacity() == capacity_with_room(
                old(self)@.len(),
                old(self).spec_capacity(),
            ),
    {
        if self.inner.len() == self.length {
            self.grow_inner();
            assert(self@.len() == old(self)@.len());
        }
        self.inner[self.length] = item;
        self.length = self.length + 1;
    }

    /// Takes the last element out and puts a default value in its slot, or
    /// returns `None` where the list is empty.
    pub fn pop(&mut self) -> (popped: Option<T>)
        requires
            old(self).wf(),
        ensures
            final(self).wf(),
            final(self).spec_capacity() == old(self).spec_capacity(),
            old(self)@.len() == 0 ==> popped is None && final(self)@ == old(self)@,
            old(self)@.len() > 0 ==> popped == Some(old(self)@.last()) && final(self)@ == old(
                self,
            )@.drop_last(),
    {
        if self.length == 0 {
            None
        } else {
            let tail: usize = self.length - 1;
            let item = self.inner[tail];
            self.inner[tail] = T::default();
            self.length = tail;
            Some(item)
        }
    }

    /// Takes the element at `index` out and closes the gap: the elements
    /// behind it each move one slot down, and the slot that falls free takes
    /// a default value. The result is always `Some`.
    pub fn remove_at(&mut self, index: usize) -> (removed: Option<T>)
        requires
            old(self).wf(),
            index < old(self)@.len(),
        ensures
            final(self).wf(),
            final(self).spec_capacity() == old(self).spec_capacity(),
            removed == Some(old(self)@[index as int]),
            final(self)@ == old(self)@.remove(index as int),
    {
        let ghost before = self.inner@;
        let item = self.inner[index];
        let last: usize = self.length - 1;
        let mut at: usize = index;
        while at < last
            invariant
                index <= at <= last < before.len(),
                last + 1 == self.length,
                self.length == old(self).length,
                self.inner@.len() == before.len(),
                forall|k: int| 0 <= k < index ==> #[trigger] self.inner@[k] == before[k],
                forall|k: int| index <= k < at ==> #[trigger] self.inner@[k] == before[k + 1],
                forall|k: int| at <= k < before.len() ==> #[trigger] self.inner@[k] == before[k],
            decreases last - at,
        {
            self.inner[at] = self.inner[at + 1];
            at += 1;
        }
        self.inner[last] = T::default();
        self.length = last;
        Some(item)
    }

    /// The first position whose element equals `element`, found by a scan
    /// from the front.
    pub fn position(&self, element: &T) -> (found: Option<usize>)
        requires
            self.wf(),
        ensures
            match found {
                Some(index) => is_first_match(self@, *element, index as int),
                None => has_no_match(self@, *element),
            },
    {
        let mut index: usize = 0;
        while index < self.length
            invariant
                self.wf(),
                index <= self.length,
                forall|j: int| 0 <= j < index ==> compares_as(#[trigger] self@[j], *element, false),
            decreases self.length - index,
        {
            if self.inner[index] == *element {
                return Some(index);
            }
            index += 1;
        }
        None
    }

    /// Removes the first element that equals `element` and returns it, or
    /// returns `None` and changes nothing where no element equals it.
    pub fn remove(&mut self, element: &T) -> (removed: Option<T>)
        requires
            old(self).wf(),
        ensures
            final(self).wf(),
            final(self).spec_capacity() == old(self).spec_capacity(),
            match removed {
                Some(value) => exists|index: int|
                    {
                        &&& 0 <= index < old(self)@.len()
                        &&& value == #[trigger] old(self)@[index]
                        &&& final(self)@ == old(self)@.remove(index)
                        &&& is_first_match(old(self)@, *element, index)
                    },
                None => {
                    &&& final(self)@ == old(self)@
                    &&& has_no_match(old(self)@, *element)
                },
            },
    {
        match self.position(element) {
            Some(index) => self.remove_at(index),
            None => None,
        }
    }

    /// The elements as one slice, in order.
    pub fn as_slice(&self) -> (live: &[T])
        requires
            self.wf(),
        ensures
            live@ == self@,
    {
        let live = vstd::slice::slice_subrange(self.inner.as_slice(), 0, self.length);
        assert(live@ =~= self@);
        live
    }

    /// The element at `i`, or `None` where `i` is not below the length.
    pub fn get(&self, i: usize) -> (element: Option<&T>)
        requires
            self.wf(),
        ensures
            i < self@.len() ==> element == Some(&self@[i as int]),
            i >= self@.len() ==> element is None,
    {
        if i < self.length {
            Some(&self.inner[i])
        } else {
            None
        }
    }

    /// Opens a slot at `offset`: the slots grow first where they are full,
    /// then the elements from `offset` on each move one slot up, the last one
    /// first. The slot at `offset` keeps what it held, and the length stays
    /// as it is, so the slot behind the last element now holds that element.
    fn shift(&mut self, offset: usize)
        requires
            old(self).wf(),
            offset <= old(self).length,
            old(self).has_room(),
        ensures
            final(self).length == old(self).length,
            final(self).length < final(self).inner@.len(),
            final(self).inner@.len() == capacity_with_room(
                old(self).length as nat,
                old(self).inner@.len(),
            ),
            forall|k: int| 0 <= k < offset ==> #[trigger] final(self).inner@[k] == old(self).inner@[k],
            offset < old(self).inner@.len() ==> final(self).inner@[offset as int] == old(
                self,
            ).inner@[offset as int],
            forall|k: int|
                offset < k <= old(self).length ==> #[trigger] final(self).inner@[k] == old(
                    self,
                ).inner@[k - 1],
            forall|k: int|
                old(self).length < k < final(self).inner@.len() ==> is_default(
                    #[trigger] final(self).inner@[k],
                ),
    {
        if self.inner.len() == self.length {
            self.grow_inner();
            assert(self@.len() == old(self)@.len());
        }
        let ghost before = self.inner@;
        proof {
            assert(self.length == old(self).length);
            assert(self.length < before.len());
            assert forall|k: int| 0 <= k < self.length implies before[k] == old(self).inner@[k] by {
                assert(self@[k] == old(self)@[k]);
            }
        }
        let mut gap: usize = self.length;
        while gap > offset
            invariant
                offset <= gap <= self.length < before.len(),
                self.length == old(self).length,
                self.inner@.len() == before.len(),
                forall|k: int| 0 <= k <= gap ==> #[trigger] self.inner@[k] == before[k],
                forall|k: int| gap < k <= self.length ==> #[trigger] self.inner@[k] == before[k - 1],
                forall|k: int| self.length < k < before.len() ==> #[trigger] self.inner@[k] == before[k],
            decreases gap,
        {
            self.inner[gap] = self.inner[gap - 1];
            gap -= 1;
        }
    }

    /// Inserts `item` before the element at `index`, or behind the last one
    /// where `index` is the length.
    pub fn insert_at(&mut self, index: usize, item: T)
        requires
            old(self).wf(),
            index <= old(self)@.len(),
            old(self).has_room(),
        ensures
            final(self).wf(),
            final(self)@ == old(self)@.insert(index as int, item),
            final(self).spec_capacity() == capacity_with_room(
                old(self)@.len(),
                old(self).spec_capacity(),
            ),
    {
        self.shift(index);
        assert(self.inner.len() == self.inner@.len());
        self.inner[index] = item;
        self.length = self.length + 1;
    }

    /// Inserts `item` before every element.
    pub fn prepend(&mut self, item: T)
        requires
            old(self).wf(),
            old(self).has_room(),
        ensures
            final(self).wf(),
            final(self)@ == seq![item] + old(self)@,
            final(self).spec_capacity() == capacity_with_room(
                old(self)@.len(),
                old(self).spec_capacity(),
            ),
    {
        self.insert_at(0, item);
    }
}

} // verus!
