//! Laws relating the container's operations to one another, stated over the
//! sequence views that their contracts use; they hold alike for both link
//! encodings, whose operations carry the same contracts.

use vstd::prelude::*;

verus! {

/// The view a list has after the elements of `vs` are pushed in order onto a
/// list whose view was empty: `push` ensures that the new view is its element
/// prepended to the old one, so the last element pushed stands first.
pub open spec fn view_after_pushes<T>(vs: Seq<T>) -> Seq<T>
    decreases vs.len(),
{
    if vs.len() == 0 {
        Seq::empty()
    } else {
        seq![vs.last()] + view_after_pushes(vs.drop_last())
    }
}

/// Last in, first out: pushing `v1, ..., vn` in order onto an empty list
/// leaves the view `vn, ..., v1` — the reversal of the pushed sequence — so,
/// by the contract of `pop`, the i-th of n pops returns the element pushed
/// (n - i)-th and the (n + 1)-th pop returns the empty indicator (the view
/// after n pops having length zero).
pub proof fn lemma_lifo_order<T>(vs: Seq<T>)
    ensures
        view_after_pushes(vs).len() == vs.len(),
        view_after_pushes(vs) == vs.reverse(),
        forall|i: int| 0 <= i < vs.len() ==> view_after_pushes(vs)[i] == vs[vs.len() - 1 - i],
    decreases vs.len(),
{
    if vs.len() == 0 {
        assert(view_after_pushes(vs) =~= vs.reverse());
    } else {
        lemma_lifo_order(vs.drop_last());
        assert(view_after_pushes(vs) =~= vs.reverse());
    }
}

/// Peeking does not mutate: `peek` takes the list by shared reference, and
/// `peek_mut` ensures the new view is the old one with the head slot updated
/// to whatever the returned reference finally holds — so when nothing is
/// written through it, the head slot keeps the value it already held and the
/// view, hence the result of any subsequent `pop`, is unchanged.
pub proof fn lemma_peek_mut_without_write<T>(s: Seq<T>)
    requires
        s.len() > 0,
    ensures
        s.update(0, s[0]) == s,
{
    assert(s.update(0, s[0]) =~= s);
}

/// Writing through the reference `peek_mut` returns is visible to the next
/// `pop`: `peek_mut` ensures the new view is the old one with the head slot
/// updated to the written value, that update puts the written value first and
/// leaves every later element alone, and `pop` returns the first element of
/// the view it finds.
pub proof fn lemma_peek_mut_write_then_pop<T>(s: Seq<T>, v: T)
    requires
        s.len() > 0,
    ensures
        s.update(0, v)[0] == v,
        s.update(0, v).skip(1) == s.skip(1),
{
    assert(s.update(0, v).skip(1) =~= s.skip(1));
}

/// All traversals agree on order: `pop`, `IntoIter::next`, `Iter::next` and
/// `IterMut::next` each yield the first element of the remaining view and
/// leave the rest, and `into_iter`, `iter` and `iter_mut` each start from a
/// view equal to the list's. So after i steps any of them has remainder
/// `s.skip(i)` and yields `s[i]` next: for the same sequence of pushes, the
/// three iterator forms and repeated `pop` deliver the elements in the same
/// order.
pub proof fn lemma_traversal_order<T>(s: Seq<T>, i: int)
    requires
        0 <= i < s.len(),
    ensures
        s.skip(i).len() == s.len() - i,
        s.skip(i)[0] == s[i],
        s.skip(i).skip(1) == s.skip(i + 1),
{
    assert(s.skip(i).skip(1) =~= s.skip(i + 1));
}

} // verus!
