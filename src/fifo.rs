//! Runs of pushes and pops over a queue's contents, as `Inner::push` and
//! `Inner::pop` change them, and the order laws they obey.

use vstd::prelude::*;

verus! {

/// Contents after pushing each element of `xs`, in order, onto contents `q`.
pub open spec fn filled<T>(q: Seq<T>, xs: Seq<T>) -> Seq<T>
    decreases xs.len(),
{
    if xs.len() == 0 {
        q
    } else {
        filled(q.push(xs[0]), xs.drop_first())
    }
}

/// What popping contents `q` until empty hands out, in order: each pop yields
/// the first element and leaves the rest.
pub open spec fn drained<T>(q: Seq<T>) -> Seq<T>
    decreases q.len(),
{
    if q.len() == 0 {
        Seq::empty()
    } else {
        seq![q[0]].add(drained(q.drop_first()))
    }
}

/// Pushing a run of elements appends them behind the present contents.
pub proof fn lemma_filled_appends<T>(q: Seq<T>, xs: Seq<T>)
    ensures
        filled(q, xs) == q + xs,
    decreases xs.len(),
{
    if xs.len() == 0 {
        assert(q + xs =~= q);
    } else {
        lemma_filled_appends(q.push(xs[0]), xs.drop_first());
        assert(q.push(xs[0]) + xs.drop_first() =~= q + xs);
    }
}

/// Popping until empty hands out the contents oldest first.
pub proof fn lemma_drained_in_order<T>(q: Seq<T>)
    ensures
        drained(q) == q,
    decreases q.len(),
{
    if q.len() > 0 {
        lemma_drained_in_order(q.drop_first());
        assert(seq![q[0]] + q.drop_first() =~= q);
    }
}

/// A value pushed onto an empty queue is the value that the next pop returns,
/// and that pop leaves the queue empty again; so it is for a queue of one slot.
pub proof fn lemma_push_then_pop<T>(v: T)
    ensures
        Seq::<T>::empty().push(v)[0] == v,
        Seq::<T>::empty().push(v).drop_first() == Seq::<T>::empty(),
        Seq::<T>::empty().len() < 1,
{
    assert(Seq::<T>::empty().push(v).drop_first() =~= Seq::<T>::empty());
}

/// Pops return the elements that a producer pushed, in the order it pushed
/// them, after whatever the queue already held.
pub proof fn lemma_pops_follow_pushes<T>(q: Seq<T>, xs: Seq<T>)
    ensures
        drained(filled(q, xs)) == q + xs,
        drained(filled(Seq::<T>::empty(), xs)) == xs,
{
    lemma_filled_appends(q, xs);
    lemma_drained_in_order(q + xs);
    lemma_filled_appends(Seq::<T>::empty(), xs);
    lemma_drained_in_order(Seq::<T>::empty() + xs);
    assert(Seq::<T>::empty() + xs =~= xs);
}

/// However the pushes of several producers interleave into one run `s`, the
/// elements of any one producer (those that `mine` picks out) come out of the
/// queue in the order that producer pushed them.
pub proof fn lemma_each_producer_keeps_order<T>(s: Seq<T>, mine: spec_fn(T) -> bool)
    ensures
        drained(filled(Seq::<T>::empty(), s)).filter(mine) == s.filter(mine),
{
    lemma_pops_follow_pushes(Seq::<T>::empty(), s);
}

/// Once a pop has freed a slot of a full queue, one more push is admitted.
pub proof fn lemma_pop_frees_a_slot<T>(q: Seq<T>, cap: nat)
    requires
        q.len() == cap,
        cap > 0,
    ensures
        q.drop_first().len() < cap,
        q.drop_first().push(q[0]).len() == cap,
{
}

} // verus!
