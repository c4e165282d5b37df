//! What it means to find an element by its value: the containers compare
//! with `==`, from the front, and stop at the first element that matches.

use vstd::prelude::*;
use vstd::std_specs::cmp::PartialEqSpec;

verus! {

/// Whether `a == b`, as the `PartialEq` of `T` computes it, may give
/// `outcome`. For a type whose `==` has a meaning in contracts, `outcome` is
/// then that meaning.
pub open spec fn compares_as<T: PartialEq>(a: T, b: T, outcome: bool) -> bool {
    call_ensures(T::eq, (&a, &b), outcome)
}

/// Whether `index` is the first position of `s` whose element equals
/// `element`.
pub open spec fn is_first_match<T: PartialEq>(s: Seq<T>, element: T, index: int) -> bool {
    &&& 0 <= index < s.len()
    &&& compares_as(s[index], element, true)
    &&& forall|j: int| 0 <= j < index ==> compares_as(#[trigger] s[j], element, false)
}

/// Whether no element of `s` equals `element`.
pub open spec fn has_no_match<T: PartialEq>(s: Seq<T>, element: T) -> bool {
    forall|j: int| 0 <= j < s.len() ==> compares_as(#[trigger] s[j], element, false)
}

/// For a type whose `==` has a meaning in contracts, a first match is the
/// first element that is equal in that meaning.
pub proof fn lemma_first_match<T: PartialEq>(s: Seq<T>, element: T, index: int)
    requires
        T::obeys_eq_spec(),
        is_first_match(s, element, index),
    ensures
        s[index].eq_spec(&element),
        forall|j: int| 0 <= j < index ==> !(#[trigger] s[j]).eq_spec(&element),
{
}

/// For a type whose `==` has a meaning in contracts, no match means that no
/// element is equal in that meaning.
pub proof fn lemma_no_match<T: PartialEq>(s: Seq<T>, element: T)
    requires
        T::obeys_eq_spec(),
        has_no_match(s, element),
    ensures
        forall|j: int| 0 <= j < s.len() ==> !(#[trigger] s[j]).eq_spec(&element),
{
}

} // verus!
