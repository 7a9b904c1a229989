use vstd::prelude::*;

use std::collections::VecDeque;

use crate::errors::DooError;

verus! {

/// What one push leaves in a capped buffer: the item at the front while
/// there is room, the buffer unchanged (the push rejected) while full.
pub open spec fn pushed<T>(entries: Seq<T>, cap: int, item: T) -> Seq<T> {
    if entries.len() < cap {
        seq![item] + entries
    } else {
        entries
    }
}

/// The buffer after pushing `items` in order, each by the rule above.
pub open spec fn pushed_all<T>(entries: Seq<T>, cap: int, items: Seq<T>) -> Seq<T>
    decreases items.len(),
{
    if items.len() == 0 {
        entries
    } else {
        pushed_all(pushed(entries, cap, items.first()), cap, items.drop_first())
    }
}

/// While there is room for all of them, pushed items line up in front of
/// the old entries in reverse order of pushing: most recent first.
proof fn lemma_pushed_all_reverses<T>(entries: Seq<T>, cap: int, items: Seq<T>)
    requires
        entries.len() + items.len() <= cap,
    ensures
        pushed_all(entries, cap, items) == items.reverse() + entries,
    decreases items.len(),
{
    if items.len() == 0 {
        assert(items.reverse() + entries =~= entries);
    } else {
        lemma_pushed_all_reverses(seq![items.first()] + entries, cap, items.drop_first());
        assert(items.drop_first().reverse() + (seq![items.first()] + entries) =~= items.reverse()
            + entries);
    }
}

/// The undo capacity bound: filling a buffer of capacity `cap` from empty
/// with `cap` pushes leaves exactly those entries, most recent first; the
/// buffer is then full, so one more push is rejected and changes nothing.
pub proof fn lemma_undo_capacity_bound<T>(cap: int, items: Seq<T>)
    requires
        cap >= 0,
        items.len() == cap + 1,
    ensures
        ({
            let full = pushed_all(Seq::<T>::empty(), cap, items.take(cap));
            &&& full == items.take(cap).reverse()
            &&& full.len() == cap
            &&& pushed(full, cap, items.last()) == full
        }),
{
    lemma_pushed_all_reverses(Seq::<T>::empty(), cap, items.take(cap));
    assert(items.take(cap).reverse() + Seq::<T>::empty() =~= items.take(cap).reverse());
}

/// A capacity-limited queue ordered by recency of insertion: the front is the
/// most recently pushed entry. Pushing beyond capacity is rejected rather
/// than evicting; the capacity is fixed at construction.
pub struct CappedQueue<T> {
    pub items: VecDeque<T>,
    pub capacity: usize,
}

impl<T> CappedQueue<T> {
    /// The capacity bound that every operation preserves.
    pub open spec fn wf(&self) -> bool {
        self.items@.len() <= self.capacity
    }

    pub fn new(capacity: usize) -> (q: CappedQueue<T>)
        ensures
            q.items@ == Seq::<T>::empty(),
            q.capacity == capacity,
            q.wf(),
    {
        CappedQueue { items: VecDeque::new(), capacity }
    }

    /// Inserts at the front, or reports `Full` (leaving the queue unchanged)
    /// when the queue already holds `capacity` entries.
    pub fn push_front(&mut self, item: T) -> (r: Result<(), DooError>)
        ensures
            final(self).capacity == old(self).capacity,
            old(self).items@.len() < old(self).capacity ==> r is Ok && final(self).items@
                == seq![item] + old(self).items@,
            old(self).items@.len() >= old(self).capacity ==> r == Err::<(), DooError>(
                DooError::Full,
            ) && final(self).items@ == old(self).items@,
            old(self).wf() ==> final(self).wf(),
    {
        if self.items.len() < self.capacity {
            self.items.push_front(item);
            return Ok(());
        }
        Err(DooError::Full)
    }

    /// Removes and returns the most recently pushed entry, or `None` when empty.
    pub fn pop_front(&mut self) -> (r: Option<T>)
        ensures
            final(self).capacity == old(self).capacity,
            match r {
                Some(item) => {
                    &&& old(self).items@.len() > 0
                    &&& item == old(self).items@[0]
                    &&& final(self).items@ == old(self).items@.subrange(
                        1,
                        old(self).items@.len() as int,
                    )
                },
                None => old(self).items@.len() == 0 && final(self).items@ == old(self).items@,
            },
            old(self).wf() ==> final(self).wf(),
    {
        self.items.pop_front()
    }

    /// Removes and returns the least recently pushed entry, or `None` when empty.
    pub fn pop_back(&mut self) -> (r: Option<T>)
        ensures
            final(self).capacity == old(self).capacity,
            match r {
                Some(item) => {
                    &&& old(self).items@.len() > 0
                    &&& item == old(self).items@[old(self).items@.len() - 1]
                    &&& final(self).items@ == old(self).items@.subrange(
                        0,
                        old(self).items@.len() - 1,
                    )
                },
                None => old(self).items@.len() == 0 && final(self).items@ == old(self).items@,
            },
            old(self).wf() ==> final(self).wf(),
    {
        self.items.pop_back()
    }

    pub fn is_full(&self) -> (full: bool)
        ensures
            full == (self.items@.len() == self.capacity),
    {
        self.items.len() == self.capacity
    }

    /// Empties the queue; the capacity is kept. Always succeeds.
    pub fn clear(&mut self) -> (r: Result<(), DooError>)
        ensures
            r is Ok,
            final(self).items@ == Seq::<T>::empty(),
            final(self).capacity == old(self).capacity,
            final(self).wf(),
    {
        self.items.clear();
        Ok(())
    }
}

} // verus!
