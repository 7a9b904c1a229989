use vstd::prelude::*;

use std::collections::VecDeque;

use crate::errors::DooError;

verus! {

/// A capacity-limited most-recently-pushed-first buffer with the same
/// behaviour as `CappedQueue`, but restricted to the push/pop pair an undo
/// history needs, and with its representation kept private.
pub struct UndoQueue<T> {
    queue: VecDeque<T>,
    capacity: usize,
}

impl<T> UndoQueue<T> {
    /// The buffered entries, most recent first.
    pub closed spec fn entries(&self) -> Seq<T> {
        self.queue@
    }

    /// The fixed capacity the buffer was created with.
    pub closed spec fn cap(&self) -> usize {
        self.capacity
    }

    /// The capacity bound that every operation preserves.
    pub open spec fn wf(&self) -> bool {
        self.entries().len() <= self.cap()
    }

    pub fn new(capacity: usize) -> (q: UndoQueue<T>)
        ensures
            q.entries() == Seq::<T>::empty(),
            q.cap() == capacity,
            q.wf(),
    {
        UndoQueue { queue: VecDeque::new(), capacity }
    }

    /// Inserts at the front, or reports `Full` (leaving the buffer unchanged)
    /// when the buffer already holds `cap()` entries.
    pub fn push(&mut self, item: T) -> (r: Result<(), DooError>)
        ensures
            final(self).cap() == old(self).cap(),
            old(self).entries().len() < old(self).cap() ==> r is Ok && final(self).entries()
                == seq![item] + old(self).entries(),
            old(self).entries().len() >= old(self).cap() ==> r == Err::<(), DooError>(
                DooError::Full,
            ) && final(self).entries() == old(self).entries(),
            old(self).wf() ==> final(self).wf(),
    {
        if self.queue.len() < self.capacity {
            self.queue.push_front(item);
            return Ok(());
        }
        Err(DooError::Full)
    }

    /// Removes and returns the most recently pushed entry, or `None` when empty.
    pub fn pop(&mut self) -> (r: Option<T>)
        ensures
            final(self).cap() == old(self).cap(),
            match r {
                Some(item) => {
                    &&& old(self).entries().len() > 0
                    &&& item == old(self).entries()[0]
                    &&& final(self).entries() == old(self).entries().subrange(
                        1,
                        old(self).entries().len() as int,
                    )
                },
                None => {
                    &&& old(self).entries().len() == 0
                    &&& final(self).entries() == old(self).entries()
                },
            },
            old(self).wf() ==> final(self).wf(),
    {
        self.queue.pop_front()
    }
}

} // verus!
