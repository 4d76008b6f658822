//! The ring of slots that holds a queue's elements.

use vstd::prelude::*;

verus! {

/// Position in the ring of the element `i` places after `start`, for
/// `start < cap` and `i < cap`.
pub open spec fn slot_of(cap: int, start: int, i: int) -> int {
    if start + i < cap {
        start + i
    } else {
        start + i - cap
    }
}

/// How many places slot `j` lies after `start`, going round the ring.
pub open spec fn offset_of(cap: int, start: int, j: int) -> int {
    if j >= start {
        j - start
    } else {
        j + cap - start
    }
}

/// Fixed storage of `LEN` slots. The occupied slots are the `size` slots
/// that follow `start` round the ring; every other slot is vacant.
#[derive(Debug)]
pub struct Inner<T, const LEN: usize> {
    slots: Vec<Option<T>>,
    start: usize,
    size: usize,
}

impl<T, const LEN: usize> Inner<T, LEN> {
    /// A slot holds an element exactly when it lies in the window of `size`
    /// slots that starts at `start`.
    #[verifier::type_invariant]
    spec fn wf(self) -> bool {
        &&& self.slots@.len() == LEN
        &&& self.start < LEN || self.start == 0
        &&& self.size <= LEN
        &&& forall|j: int|
            0 <= j < LEN ==> ((#[trigger] self.slots@[j]).is_some() <==> offset_of(
                LEN as int,
                self.start as int,
                j,
            ) < self.size)
    }

    /// The elements, oldest first.
    pub closed spec fn view(&self) -> Seq<T> {
        Seq::new(
            self.size as nat,
            |i: int| self.slots@[slot_of(LEN as int, self.start as int, i)]->Some_0,
        )
    }

    /// Creates empty storage.
    pub fn new() -> (r: Self)
        ensures
            r@ == Seq::<T>::empty(),
    {
        let mut slots: Vec<Option<T>> = Vec::new();
        let mut n: usize = 0;
        while n < LEN
            invariant
                n <= LEN,
                slots@.len() == n,
                forall|j: int| 0 <= j < n ==> (#[trigger] slots@[j]).is_none(),
            decreases LEN - n,
        {
            slots.push(None);
            n = n + 1;
        }
        let r = Inner { slots, start: 0, size: 0 };
        assert(r@ =~= Seq::<T>::empty());
        r
    }

    /// Removes and returns the oldest element.
    pub fn pop(&mut self) -> (r: T)
        requires
            old(self)@.len() > 0,
        ensures
            r == old(self)@[0],
            final(self)@ == old(self)@.drop_first(),
    {
        proof { use_type_invariant(&*self); }
        let r = take_front::<T, LEN>(&mut self.slots, &mut self.start, &mut self.size);
        proof {
            assert(offset_of(LEN as int, old(self).start as int, old(self).start as int) == 0);
        }
        assert(self@ =~= old(self)@.drop_first());
        r.unwrap()
    }

    /// Adds `value` after the newest element.
    pub fn push(&mut self, value: T)
        requires
            old(self)@.len() < LEN,
        ensures
            final(self)@ == old(self)@.push(value),
    {
        proof { use_type_invariant(&*self); }
        put_back::<T, LEN>(&mut self.slots, &mut self.start, &mut self.size, value);
        assert(self@ =~= old(self)@.push(value));
    }

    /// Whether no slot is free.
    pub fn is_full(&self) -> (r: bool)
        ensures
            r == (self@.len() == LEN),
    {
        self.size == LEN
    }

    /// Whether no slot is occupied.
    pub fn is_empty(&self) -> (r: bool)
        ensures
            r == (self@.len() == 0),
    {
        self.size == 0
    }
}

/// Takes the element at `start` out of the ring and advances the window past it.
fn take_front<T, const LEN: usize>(slots: &mut Vec<Option<T>>, start: &mut usize, size: &mut usize) -> (r: Option<T>)
    requires
        old(slots)@.len() == LEN,
        *old(start) < LEN,
        0 < *old(size) <= LEN,
        forall|j: int|
            0 <= j < LEN ==> ((#[trigger] old(slots)@[j]).is_some() <==> offset_of(
                LEN as int,
                *old(start) as int,
                j,
            ) < *old(size)),
    ensures
        final(slots)@.len() == LEN,
        *final(start) < LEN,
        *final(size) == *old(size) - 1,
        *final(start) == slot_of(LEN as int, *old(start) as int, 1),
        final(slots)@ == old(slots)@.update(*old(start) as int, None),
        r == old(slots)@[*old(start) as int],
    no_unwind
{
    let old_start = *start;
    *start = if old_start + 1 == LEN { 0 } else { old_start + 1 };
    *size = *size - 1;
    let mut r: Option<T> = None;
    std::mem::swap(&mut r, &mut slots[old_start]);
    r
}

impl<T: Clone, const LEN: usize> Clone for Inner<T, LEN> {
    /// Copies the occupied slots one by one; vacant slots stay vacant.
    fn clone(&self) -> (r: Self)
        ensures
            r@.len() == self@.len(),
            forall|i: int| 0 <= i < self@.len() ==> cloned::<T>(self@[i], #[trigger] r@[i]),
    {
        proof { use_type_invariant(self); }
        let mut slots: Vec<Option<T>> = Vec::new();
        let mut j: usize = 0;
        while j < LEN
            invariant
                j <= LEN,
                self.slots@.len() == LEN,
                slots@.len() == j,
                forall|k: int|
                    0 <= k < j ==> (#[trigger] slots@[k]).is_some() == self.slots@[k].is_some(),
                forall|k: int|
                    0 <= k < j && self.slots@[k].is_some() ==> cloned::<T>(
                        self.slots@[k]->Some_0,
                        #[trigger] slots@[k]->Some_0,
                    ),
            decreases LEN - j,
        {
            let copy = match &self.slots[j] {
                Some(x) => Some(x.clone()),
                None => None,
            };
            slots.push(copy);
            j = j + 1;
        }
        let r = Inner { slots, start: self.start, size: self.size };
        assert forall|i: int| 0 <= i < self@.len() implies cloned::<T>(self@[i], #[trigger] r@[i]) by {
            let k = slot_of(LEN as int, self.start as int, i);
            assert(offset_of(LEN as int, self.start as int, k) == i);
            assert(self.slots@[k].is_some());
        }
        r
    }
}

impl<T, const LEN: usize> Default for Inner<T, LEN> {
    fn default() -> (r: Self)
        ensures
            r@ == Seq::<T>::empty(),
    {
        Self::new()
    }
}

/// Stores `value` in the first vacant slot after the window and widens the window over it.
fn put_back<T, const LEN: usize>(
    slots: &mut Vec<Option<T>>,
    start: &mut usize,
    size: &mut usize,
    value: T,
)
    requires
        old(slots)@.len() == LEN,
        *old(start) < LEN,
        *old(size) < LEN,
        forall|j: int|
            0 <= j < LEN ==> ((#[trigger] old(slots)@[j]).is_some() <==> offset_of(
                LEN as int,
                *old(start) as int,
                j,
            ) < *old(size)),
    ensures
        *final(start) == *old(start),
        *final(size) == *old(size) + 1,
        final(slots)@ == old(slots)@.update(
            slot_of(LEN as int, *old(start) as int, *old(size) as int),
            Some(value),
        ),
    no_unwind
{
    let end = if *size >= LEN - *start {
        *size - (LEN - *start)
    } else {
        *start + *size
    };
    slots[end] = Some(value);
    *size = *size + 1;
}

} // verus!
