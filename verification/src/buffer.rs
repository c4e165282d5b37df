//! The storage engine: a run of slots, each holding one element or nothing.
//!
//! A buffer knows nothing of which slots are live. It hands out slots by
//! index and grows by the doubling policy; what the slots mean is the
//! business of the container that owns it.
//!
//! A slot of a buffer for `T` is an `Option<T>`, so it is the size of
//! `Option<T>` that counts against the size limit.

use vstd::prelude::*;
use crate::growth::{can_grow, grown_capacity, next_capacity};

verus! {

/// The slots of `slots` followed by the empty slots that one growth step
/// adds.
pub open spec fn grown<T>(slots: Seq<Option<T>>) -> Seq<Option<T>> {
    slots + Seq::new((next_capacity(slots.len()) - slots.len()) as nat, |i: int| None::<T>)
}

/// Whether the slots `from..to` of `slots`, and no others, hold an element.
pub open spec fn live_range<T>(slots: Seq<Option<T>>, from: int, to: int) -> bool {
    &&& 0 <= from <= to <= slots.len()
    &&& forall|i: int| 0 <= i < slots.len() ==> (slots[i] is Some <==> from <= i < to)
}

/// The elements in the slots `from..to` of `slots`, in slot order.
pub open spec fn elements<T>(slots: Seq<Option<T>>, from: int, to: int) -> Seq<T> {
    Seq::new((to - from) as nat, |i: int| slots[from + i]->0)
}

/// Contiguous storage of `capacity` slots. The view gives each slot as
/// `Some(element)` or, where the slot is empty, `None`.
#[derive(Debug)]
pub struct Buffer<T> {
    slots: Vec<Option<T>>,
}

impl<T> View for Buffer<T> {
    type V = Seq<Option<T>>;

    closed spec fn view(&self) -> Seq<Option<T>> {
        self.slots@
    }
}

impl<T> Buffer<T> {
    /// A buffer without any slot. Nothing is allocated until the first
    /// growth.
    pub fn new() -> (buffer: Self)
        ensures
            buffer@ == Seq::<Option<T>>::empty(),
    {
        Buffer { slots: Vec::new() }
    }

    /// The slots can be counted by a `usize`.
    pub proof fn lemma_capacity_bounded(&self)
        ensures
            self@.len() <= usize::MAX,
    {
        assert(self.slots.len() == self.slots@.len());
    }

    /// The number of slots.
    pub fn capacity(&self) -> (capacity: usize)
        ensures
            capacity == self@.len(),
    {
        self.slots.len()
    }

    /// Whether the buffer may grow once more without exceeding the size
    /// limit.
    pub fn can_grow(&self) -> (yes: bool)
        ensures
            yes == can_grow::<Option<T>>(self@.len()),
    {
        grown_capacity::<Option<T>>(self.slots.len()).is_some()
    }

    /// Grows the buffer to the next capacity. Every slot keeps its index and
    /// its content; the slots that are added are empty. The caller makes
    /// sure beforehand that the grown buffer stays within the size limit.
    pub fn grow(&mut self)
        requires
            can_grow::<Option<T>>(old(self)@.len()),
        ensures
            final(self)@ == grown(old(self)@),
    {
        let capacity: usize = self.slots.len();
        let target: usize = grown_capacity::<Option<T>>(capacity).unwrap();
        self.slots.reserve(target - capacity);
        while self.slots.len() < target
            invariant
                capacity <= self.slots.len() <= target,
                self.slots@.subrange(0, capacity as int) == old(self).slots@,
                forall|i: int| capacity <= i < self.slots.len() ==> self.slots@[i] is None,
            decreases target - self.slots.len(),
        {
            self.slots.push(None);
        }
    }

    /// Writes `value` into the slot at `index`, over whatever it held.
    pub fn put(&mut self, index: usize, value: T)
        requires
            index < old(self)@.len(),
        ensures
            final(self)@ == old(self)@.update(index as int, Some(value)),
    {
        self.slots[index] = Some(value);
    }

    /// Moves the element out of the slot at `index` and leaves the slot
    /// empty.
    pub fn take(&mut self, index: usize) -> (value: T)
        requires
            index < old(self)@.len(),
            old(self)@[index as int] is Some,
        ensures
            Some(value) == old(self)@[index as int],
            final(self)@ == old(self)@.update(index as int, None),
    {
        self.slots[index].take().unwrap()
    }

    /// The element in the slot at `index`.
    pub fn peek(&self, index: usize) -> (value: &T)
        requires
            index < self@.len(),
            self@[index as int] is Some,
        ensures
            Some(*value) == self@[index as int],
    {
        self.slots[index].as_ref().unwrap()
    }

    /// The element in the slot at `index`, to be changed in place.
    pub fn peek_mut(&mut self, index: usize) -> (value: &mut T)
        requires
            index < old(self)@.len(),
            old(self)@[index as int] is Some,
        ensures
            Some(*value) == old(self)@[index as int],
            final(self)@ == old(self)@.update(index as int, Some(*final(value))),
    {
        self.slots[index].as_mut().unwrap()
    }
}

} // verus!
