//! Growable sequence containers over explicitly managed slot storage.
//!
//! - [`buffer`]: the storage engine, a run of slots that grows by doubling.
//! - [`growth`]: the doubling policy and its size limit.
//! - [`raw_vec`]: the general container, with `push`, `pop`, `insert`,
//!   `remove` and a consuming iterator ([`into_iter`]).
//! - [`stack`]: the same container, reached only at its end.
//! - [`array_list`]: the variant whose free slots hold a default value.
//! - [`search`]: what finding an element by its value means.
//! - [`laws`]: what holds of sequences of operations.
//!
//! Every container has a view, the mathematical sequence of its elements,
//! and an invariant `wf` that each constructor establishes and each method
//! keeps. An index out of range and a growth beyond the size limit are
//! errors of the caller: the contracts rule them out. A container owns its
//! buffer and its elements; both are released once, when the owner goes, and
//! the consuming iterator takes the ownership over. The containers hold no
//! lock: they may move between threads, and be read from several, as far as
//! their elements may.

use vstd::prelude::*;

pub mod array_list;
pub mod buffer;
pub mod growth;
pub mod into_iter;
pub mod laws;
pub mod raw_vec;
pub mod search;
pub mod stack;

verus! {

/// Sum of two unsigned numbers that fits in 64 bits.
pub fn add(left: u64, right: u64) -> (sum: u64)
    requires
        left + right <= u64::MAX,
    ensures
        sum == left + right,
{
    left + right
}

} // verus!
