//! The bounded FIFO buffers in which the drivers keep their most recent
//! records: when the buffer is full, pushing a record drops the oldest one.
use std::collections::VecDeque;
use vstd::prelude::*;

verus! {

/// Appends `x` to a buffer of capacity `cap`, first dropping the oldest
/// element when the buffer already holds `cap` or more elements.
pub open spec fn push_bounded<T>(s: Seq<T>, x: T, cap: nat) -> Seq<T> {
    if s.len() >= cap {
        s.drop_first().push(x)
    } else {
        s.push(x)
    }
}

/// The last `cap` elements of `history`, oldest first (all of it when it is
/// shorter).
pub open spec fn latest<T>(history: Seq<T>, cap: nat) -> Seq<T> {
    if history.len() <= cap {
        history
    } else {
        history.subrange(history.len() - cap, history.len() as int)
    }
}

/// The contents of a buffer of capacity `cap` that started empty and was
/// pushed each element of `history` in turn.
pub open spec fn replay<T>(history: Seq<T>, cap: nat) -> Seq<T>
    decreases history.len(),
{
    if history.len() == 0 {
        Seq::empty()
    } else {
        push_bounded(replay(history.drop_last(), cap), history.last(), cap)
    }
}

/// Pushing onto a buffer that holds the latest `cap` elements of a history
/// gives the latest `cap` elements of the history extended by the new one.
pub proof fn lemma_push_keeps_latest<T>(history: Seq<T>, x: T, cap: nat)
    requires
        cap > 0,
    ensures
        push_bounded(latest(history, cap), x, cap) == latest(history.push(x), cap),
        latest(history, cap).len() <= cap,
{
    let h2 = history.push(x);
    if history.len() < cap {
        assert(latest(history, cap) == history);
        assert(latest(h2, cap) == h2);
    } else {
        let l = latest(history, cap);
        assert(l.len() == cap);
        assert(push_bounded(l, x, cap) =~= h2.subrange(h2.len() - cap, h2.len() as int));
    }
}

/// A buffer of capacity `cap` that started empty holds, after any sequence
/// of pushes, exactly the last `cap` elements pushed, oldest first, and so
/// never more than `cap` elements.
pub proof fn lemma_buffer_holds_latest<T>(history: Seq<T>, cap: nat)
    requires
        cap > 0,
    ensures
        replay(history, cap) == latest(history, cap),
        replay(history, cap).len() <= cap,
    decreases history.len(),
{
    if history.len() == 0 {
    } else {
        let h = history.drop_last();
        lemma_buffer_holds_latest(h, cap);
        lemma_push_keeps_latest(h, history.last(), cap);
        assert(h.push(history.last()) =~= history);
        lemma_push_keeps_latest(history, history.last(), cap);
    }
}

/// A FIFO buffer that holds at most `capacity` records.
pub struct BoundedQueue<T> {
    items: VecDeque<T>,
    capacity: usize,
}

impl<T> View for BoundedQueue<T> {
    type V = Seq<T>;

    closed spec fn view(&self) -> Seq<T> {
        self.items@
    }
}

impl<T> BoundedQueue<T> {
    #[verifier::type_invariant]
    closed spec fn inv(&self) -> bool {
        0 < self.capacity && self.items@.len() <= self.capacity
    }

    /// The most records the buffer holds.
    pub closed spec fn spec_capacity(&self) -> nat {
        self.capacity as nat
    }

    /// An empty buffer of the given positive capacity.
    pub fn new(capacity: usize) -> (r: Self)
        requires
            capacity > 0,
        ensures
            r@ == Seq::<T>::empty(),
            r.spec_capacity() == capacity,
    {
        BoundedQueue { items: VecDeque::new(), capacity }
    }

    /// `VecDeque::try_reserve_exact`: asks the allocator for room for
    /// `additional` more records. Whether it succeeds depends on the
    /// allocator; either way the records and the capacity are unchanged.
    #[verifier::external_body]
    pub(crate) fn try_reserve_exact(&mut self, additional: usize) -> (r: bool)
        ensures
            final(self)@ == old(self)@,
            final(self).spec_capacity() == old(self).spec_capacity(),
    {
        self.items.try_reserve_exact(additional).is_ok()
    }

    /// The most records the buffer holds.
    pub fn capacity(&self) -> (r: usize)
        ensures
            r == self.spec_capacity(),
    {
        self.capacity
    }

    /// The number of records held.
    pub fn len(&self) -> (r: usize)
        ensures
            r == self@.len(),
            r <= self.spec_capacity(),
    {
        proof {
            use_type_invariant(self);
        }
        self.items.len()
    }

    /// The record at position `i`, counted from the oldest.
    pub fn get(&self, i: usize) -> (r: &T)
        requires
            i < self@.len(),
        ensures
            *r == self@[i as int],
    {
        &self.items[i]
    }

    /// Appends a record, first dropping the oldest one when the buffer is
    /// full.
    pub fn push(&mut self, item: T)
        ensures
            final(self)@ == push_bounded(old(self)@, item, old(self).spec_capacity()),
            final(self).spec_capacity() == old(self).spec_capacity(),
            final(self)@.len() <= final(self).spec_capacity(),
    {
        proof {
            use_type_invariant(&*self);
        }
        let mut items: VecDeque<T> = VecDeque::new();
        std::mem::swap(&mut items, &mut self.items);
        if items.len() >= self.capacity {
            let _ = items.pop_front();
        }
        items.push_back(item);
        proof {
            assert(items@ =~= push_bounded(old(self)@, item, old(self).spec_capacity()));
        }
        self.items = items;
    }
}

} // verus!
