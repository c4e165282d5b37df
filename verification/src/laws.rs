//! Laws of the sequence containers, stated over the sequences that their
//! views give and the operations that their contracts name: what `push`
//! does to a view is `Seq::push`, `pop` gives `last` and leaves `drop_last`,
//! `insert` is `Seq::insert`, `remove` gives the element and leaves
//! `Seq::remove`. The iterator hands out `first` and leaves `drop_first`,
//! or hands out `last` and leaves `drop_last`.

use vstd::prelude::*;

verus! {

/// The contents after pushing each of `items`, first to last, onto `start`.
pub open spec fn pushed_all<T>(start: Seq<T>, items: Seq<T>) -> Seq<T>
    decreases items.len(),
{
    if items.len() == 0 {
        start
    } else {
        pushed_all(start.push(items.first()), items.drop_first())
    }
}

/// The elements that `count` pops hand out of `s`, in the order in which
/// they come. Popping stops early where nothing is left.
pub open spec fn popped<T>(s: Seq<T>, count: nat) -> Seq<T>
    decreases count,
{
    if count == 0 || s.len() == 0 {
        Seq::empty()
    } else {
        seq![s.last()] + popped(s.drop_last(), (count - 1) as nat)
    }
}

/// What `count` pops leave of `s`.
pub open spec fn left_by_pops<T>(s: Seq<T>, count: nat) -> Seq<T>
    decreases count,
{
    if count == 0 || s.len() == 0 {
        s
    } else {
        left_by_pops(s.drop_last(), (count - 1) as nat)
    }
}

/// Pushing appends: the pushed values follow what was there, in the order
/// of the pushes. So after N pushes onto an empty container the length is N
/// and the element at position N - 1 is the value pushed last.
pub proof fn lemma_pushes<T>(start: Seq<T>, items: Seq<T>)
    ensures
        pushed_all(start, items) == start + items,
        pushed_all(Seq::<T>::empty(), items).len() == items.len(),
        items.len() > 0 ==> pushed_all(Seq::<T>::empty(), items)[items.len() - 1] == items.last(),
    decreases items.len(),
{
    lemma_pushed_all_appends(start, items);
    lemma_pushed_all_appends(Seq::<T>::empty(), items);
}

proof fn lemma_pushed_all_appends<T>(start: Seq<T>, items: Seq<T>)
    ensures
        pushed_all(start, items) == start + items,
    decreases items.len(),
{
    if items.len() > 0 {
        lemma_pushed_all_appends(start.push(items.first()), items.drop_first());
    }
}

/// Last in, first out: as many pops as there were pushes hand the pushed
/// values back in reverse order and leave what was there before.
pub proof fn lemma_lifo<T>(start: Seq<T>, items: Seq<T>)
    ensures
        popped(pushed_all(start, items), items.len()) == items.reverse(),
        left_by_pops(pushed_all(start, items), items.len()) == start,
    decreases items.len(),
{
    lemma_pushed_all_appends(start, items);
    if items.len() > 0 {
        let shorter = items.drop_last();
        lemma_lifo(start, shorter);
        lemma_pushed_all_appends(start, shorter);
        assert((start + items).drop_last() =~= start + shorter);
    }
}

/// Last in, first out, for three values: after pushing `a`, `b` and `c`,
/// three pops hand out `c`, `b` and `a`, and leave what was there before.
pub proof fn lemma_lifo_three<T>(start: Seq<T>, a: T, b: T, c: T)
    ensures
        ({
            let full = start.push(a).push(b).push(c);
            let after_one = full.drop_last();
            let after_two = after_one.drop_last();
            &&& full.last() == c
            &&& after_one.last() == b
            &&& after_two.last() == a
            &&& after_two.drop_last() == start
        }),
{
}

/// Round trip: inserting `x` at a valid index and removing at that index
/// at once hands `x` back and leaves the sequence as it was, its length and
/// every element.
pub proof fn lemma_insert_then_remove<T>(s: Seq<T>, index: int, x: T)
    requires
        0 <= index <= s.len(),
    ensures
        s.insert(index, x)[index] == x,
        s.insert(index, x).remove(index) == s,
        s.insert(index, x).remove(index).len() == s.len(),
{
}

/// Inserting at the length is pushing.
pub proof fn lemma_insert_at_end_is_push<T>(s: Seq<T>, x: T)
    ensures
        s.insert(s.len() as int, x) == s.push(x),
{
}

/// The elements that the iterator hands out from the front while it takes
/// the steps of `from_front` (`true`: one from the front; `false`: one from
/// the back), in the order in which they come.
pub open spec fn taken_at_front<T>(s: Seq<T>, from_front: Seq<bool>) -> Seq<T>
    decreases from_front.len(),
{
    if from_front.len() == 0 || s.len() == 0 {
        Seq::empty()
    } else if from_front.first() {
        seq![s.first()] + taken_at_front(s.drop_first(), from_front.drop_first())
    } else {
        taken_at_front(s.drop_last(), from_front.drop_first())
    }
}

/// The elements that the iterator hands out from the back while it takes
/// the steps of `from_front`, in the order in which they come.
pub open spec fn taken_at_back<T>(s: Seq<T>, from_front: Seq<bool>) -> Seq<T>
    decreases from_front.len(),
{
    if from_front.len() == 0 || s.len() == 0 {
        Seq::empty()
    } else if from_front.first() {
        taken_at_back(s.drop_first(), from_front.drop_first())
    } else {
        seq![s.last()] + taken_at_back(s.drop_last(), from_front.drop_first())
    }
}

/// What the iterator still holds after the steps of `from_front`.
pub open spec fn left_by_steps<T>(s: Seq<T>, from_front: Seq<bool>) -> Seq<T>
    decreases from_front.len(),
{
    if from_front.len() == 0 || s.len() == 0 {
        s
    } else if from_front.first() {
        left_by_steps(s.drop_first(), from_front.drop_first())
    } else {
        left_by_steps(s.drop_last(), from_front.drop_first())
    }
}

/// Traversal from both ends: whatever the order of the steps, what came out
/// at the front, what is left, and what came out at the back (turned round)
/// make up the sequence that the iterator started with. So every element is
/// handed out at most once, and exactly once when there are at least as many
/// steps as elements.
pub proof fn lemma_two_ended_traversal<T>(s: Seq<T>, from_front: Seq<bool>)
    ensures
        taken_at_front(s, from_front) + left_by_steps(s, from_front) + taken_at_back(
            s,
            from_front,
        ).reverse() == s,
        from_front.len() >= s.len() ==> left_by_steps(s, from_front).len() == 0,
    decreases from_front.len(),
{
    let front = taken_at_front(s, from_front);
    let back = taken_at_back(s, from_front);
    let left = left_by_steps(s, from_front);
    if from_front.len() > 0 && s.len() > 0 {
        let steps = from_front.drop_first();
        if from_front.first() {
            let rest = s.drop_first();
            lemma_two_ended_traversal(rest, steps);
            assert(front + left + back.reverse() =~= seq![s.first()] + (taken_at_front(rest, steps)
                + left + back.reverse()));
        } else {
            let rest = s.drop_last();
            lemma_two_ended_traversal(rest, steps);
            assert(front + left + back.reverse() =~= (taken_at_front(rest, steps) + left
                + taken_at_back(rest, steps).reverse()) + seq![s.last()]);
        }
    }
}

/// Traversal from one end: taking every element from the front gives the
/// order of the sequence, taking every element from the back gives its
/// reverse.
pub proof fn lemma_one_ended_traversal<T>(s: Seq<T>)
    ensures
        taken_at_front(s, Seq::new(s.len(), |i: int| true)) == s,
        taken_at_back(s, Seq::new(s.len(), |i: int| false)) == s.reverse(),
    decreases s.len(),
{
    let all_front = Seq::new(s.len(), |i: int| true);
    let all_back = Seq::new(s.len(), |i: int| false);
    if s.len() > 0 {
        lemma_one_ended_traversal(s.drop_first());
        lemma_one_ended_traversal(s.drop_last());
        assert(all_front.drop_first() =~= Seq::new(s.drop_first().len(), |i: int| true));
        assert(all_back.drop_first() =~= Seq::new(s.drop_last().len(), |i: int| false));
    }
}

} // verus!
