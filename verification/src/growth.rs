//! The growth policy shared by every container of this crate: storage starts
//! without any slot and doubles whenever more room is needed.
//!
//! Storage never grows beyond the signed size limit of the platform, counted
//! in bytes. Growing is only allowed where [`can_grow`] holds;
//! [`grown_capacity`] makes that test at run time.

use vstd::prelude::*;

verus! {

/// The capacity that follows `capacity`: one slot out of none, twice as many
/// otherwise.
pub open spec fn next_capacity(capacity: nat) -> nat {
    if capacity == 0 {
        1
    } else {
        2 * capacity
    }
}

/// Whether `capacity` slots can be stored, each of them a value of type
/// `S`: the slots can be counted by a `usize` and their bytes stay within
/// the signed size limit of the platform.
pub open spec fn fits<S>(capacity: nat) -> bool {
    &&& capacity <= usize::MAX
    &&& capacity * vstd::layout::size_of::<S>() <= isize::MAX
}

/// Whether storage of `capacity` slots, each of them a value of type `S`,
/// may grow once more.
pub open spec fn can_grow<S>(capacity: nat) -> bool {
    fits::<S>(next_capacity(capacity))
}

/// The capacity of storage that has made room for one more element beside
/// the `length` it holds: it grows only when it is full.
pub open spec fn capacity_with_room(length: nat, capacity: nat) -> nat {
    if length == capacity {
        next_capacity(capacity)
    } else {
        capacity
    }
}

/// The capacity after one growth step from `capacity`, or `None` where the
/// grown storage would exceed the size limit.
pub fn grown_capacity<S>(capacity: usize) -> (next: Option<usize>)
    ensures
        can_grow::<S>(capacity as nat) ==> next == Some(next_capacity(capacity as nat) as usize),
        !can_grow::<S>(capacity as nat) ==> next is None,
{
    let doubled: usize = if capacity == 0 {
        1
    } else {
        match capacity.checked_mul(2) {
            Some(d) => d,
            None => {
                return None;
            },
        }
    };
    let limit: usize = isize::MAX as usize;
    match doubled.checked_mul(core::mem::size_of::<S>()) {
        Some(bytes) => if bytes <= limit {
            Some(doubled)
        } else {
            None
        },
        None => None,
    }
}

/// Growth law: the grown capacity is one where there was none and exactly
/// twice the former capacity otherwise; either way it exceeds every length
/// that the former capacity could hold.
pub proof fn lemma_growth(capacity: nat, length: nat)
    requires
        length <= capacity,
    ensures
        next_capacity(capacity) > length,
        capacity == 0 ==> next_capacity(capacity) == 1,
        capacity > 0 ==> next_capacity(capacity) == 2 * capacity,
{
}

} // verus!
