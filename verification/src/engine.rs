use vstd::prelude::*;

use crate::doolist::{marked, relabeled, DooItem, DooList};
use crate::errors::DooError;
use crate::queue::CappedQueue;

verus! {

/// The list engine: the active task list together with the bounded buffer of
/// its deleted tasks. Deletion is reversible while the buffer holds the
/// deleted task; restoring reintroduces the most recent deletion at the end
/// of the list. The engine alone mutates either part.
pub struct ListEngine {
    pub doolist: DooList,
    pub undo: CappedQueue<DooItem>,
}

impl ListEngine {
    pub open spec fn wf(&self) -> bool {
        &&& self.doolist.wf()
        &&& self.undo.wf()
    }

    /// A fresh engine: empty list, no undo history. The undo capacity is
    /// fixed here for the engine's lifetime.
    pub fn new(undo_capacity: usize) -> (e: ListEngine)
        ensures
            e.wf(),
            e.doolist.name is None,
            e.doolist.path is None,
            e.doolist.list@.items == Seq::<DooItem>::empty(),
            e.doolist.list@.cursor is None,
            e.undo.items@ == Seq::<DooItem>::empty(),
            e.undo.capacity == undo_capacity,
    {
        ListEngine { doolist: DooList::new(), undo: CappedQueue::new(undo_capacity) }
    }

    /// Appends a new, incomplete task and selects it. The undo buffer is
    /// untouched by additions.
    pub fn add(&mut self, label: String)
        requires
            old(self).wf(),
        ensures
            final(self).wf(),
            final(self).doolist.list@ == old(self).doolist.list@.inserted_at_end(
                (DooItem { label: label, complete: false }),
            ),
            final(self).doolist.name == old(self).doolist.name,
            final(self).doolist.path == old(self).doolist.path,
            final(self).undo.items@ == old(self).undo.items@,
            final(self).undo.capacity == old(self).undo.capacity,
    {
        self.doolist.add_from_label(label);
    }

    /// Removes and returns the selected task. On success the removed task is
    /// also recorded at the front of the undo buffer — best effort: with the
    /// buffer already full the task is still removed, only not recorded.
    /// While nothing is selected, returns `None` and changes nothing.
    pub fn delete_selected(&mut self) -> (removed: Option<DooItem>)
        requires
            old(self).wf(),
        ensures
            final(self).wf(),
            final(self).doolist.name == old(self).doolist.name,
            final(self).doolist.path == old(self).doolist.path,
            final(self).undo.capacity == old(self).undo.capacity,
            old(self).doolist.list@.cursor is None ==> {
                &&& removed is None
                &&& final(self).doolist.list@ == old(self).doolist.list@
                &&& final(self).undo.items@ == old(self).undo.items@
            },
            old(self).doolist.list@.cursor matches Some(i) ==> {
                &&& removed matches Some(item) && item == old(self).doolist.list@.items[i]
                &&& final(self).doolist.list@ == old(self).doolist.list@.removed_at(i)
                &&& (old(self).undo.items@.len() < old(self).undo.capacity
                    ==> final(self).undo.items@
                        == seq![old(self).doolist.list@.items[i]] + old(self).undo.items@)
                &&& (old(self).undo.items@.len() >= old(self).undo.capacity
                    ==> final(self).undo.items@ == old(self).undo.items@)
            },
    {
        match self.doolist.remove() {
            None => None,
            Some(item) => {
                let copy = DooItem { label: item.label.clone(), complete: item.complete };
                let _ = self.undo.push_front(copy);
                Some(item)
            },
        }
    }

    /// Pops the most recent deletion and, when there is one, reintroduces it
    /// at the end of the list, selected; a no-op returning `None` while the
    /// undo buffer is empty.
    pub fn restore_last_deleted(&mut self) -> (restored: Option<DooItem>)
        requires
            old(self).wf(),
        ensures
            final(self).wf(),
            final(self).doolist.name == old(self).doolist.name,
            final(self).doolist.path == old(self).doolist.path,
            final(self).undo.capacity == old(self).undo.capacity,
            old(self).undo.items@.len() == 0 ==> {
                &&& restored is None
                &&& final(self).doolist.list@ == old(self).doolist.list@
                &&& final(self).undo.items@ == old(self).undo.items@
            },
            old(self).undo.items@.len() > 0 ==> {
                &&& restored == Some(old(self).undo.items@[0])
                &&& final(self).doolist.list@ == old(self).doolist.list@.inserted_at_end(
                    old(self).undo.items@[0],
                )
                &&& final(self).undo.items@ == old(self).undo.items@.subrange(
                    1,
                    old(self).undo.items@.len() as int,
                )
            },
    {
        match self.undo.pop_front() {
            None => None,
            Some(item) => {
                let copy = DooItem { label: item.label.clone(), complete: item.complete };
                self.doolist.add_from_item(item);
                Some(copy)
            },
        }
    }

    /// Flips the completion flag of the selected task, or reports
    /// `NoSelection` while nothing is selected. The undo buffer is untouched.
    pub fn toggle_complete_selected(&mut self) -> (r: Result<(), DooError>)
        requires
            old(self).wf(),
        ensures
            final(self).wf(),
            final(self).doolist.name == old(self).doolist.name,
            final(self).doolist.path == old(self).doolist.path,
            final(self).undo.items@ == old(self).undo.items@,
            final(self).undo.capacity == old(self).undo.capacity,
            old(self).doolist.list@.cursor is None ==> r == Err::<(), DooError>(
                DooError::NoSelection,
            ) && final(self).doolist.list@ == old(self).doolist.list@,
            old(self).doolist.list@.cursor matches Some(i) ==> {
                &&& r is Ok
                &&& final(self).doolist.list@.items == old(self).doolist.list@.items.update(
                    i,
                    marked(old(self).doolist.list@.items[i]),
                )
                &&& final(self).doolist.list@.cursor == old(self).doolist.list@.cursor
            },
    {
        self.doolist.mark_selection()
    }

    /// Rewrites the label of the selected task, or reports `NoSelection`
    /// while nothing is selected. The undo buffer is untouched.
    pub fn relabel_selected(&mut self, new_label: String) -> (r: Result<(), DooError>)
        requires
            old(self).wf(),
        ensures
            final(self).wf(),
            final(self).doolist.name == old(self).doolist.name,
            final(self).doolist.path == old(self).doolist.path,
            final(self).undo.items@ == old(self).undo.items@,
            final(self).undo.capacity == old(self).undo.capacity,
            old(self).doolist.list@.cursor is None ==> r == Err::<(), DooError>(
                DooError::NoSelection,
            ) && final(self).doolist.list@ == old(self).doolist.list@,
            old(self).doolist.list@.cursor matches Some(i) ==> {
                &&& r is Ok
                &&& final(self).doolist.list@.items == old(self).doolist.list@.items.update(
                    i,
                    relabeled(old(self).doolist.list@.items[i], new_label),
                )
                &&& final(self).doolist.list@.cursor == old(self).doolist.list@.cursor
            },
    {
        self.doolist.change_label_name(new_label)
    }

    /// Sets the display name; always succeeds and touches nothing else.
    pub fn rename_list(&mut self, new_name: String)
        ensures
            final(self).doolist.name == Some(new_name),
            final(self).doolist.list@ == old(self).doolist.list@,
            final(self).doolist.path == old(self).doolist.path,
            final(self).undo.items@ == old(self).undo.items@,
            final(self).undo.capacity == old(self).undo.capacity,
    {
        self.doolist.change_name(new_name);
    }

    /// Starts a new list: empties the sequence, clears the display name and
    /// the backing path, and discards the undo history, so deletions from
    /// the previous list can no longer be restored. The undo capacity is kept.
    pub fn reset(&mut self)
        ensures
            final(self).wf(),
            final(self).doolist.name is None,
            final(self).doolist.path is None,
            final(self).doolist.list@.items == Seq::<DooItem>::empty(),
            final(self).doolist.list@.cursor is None,
            final(self).undo.items@ == Seq::<DooItem>::empty(),
            final(self).undo.capacity == old(self).undo.capacity,
    {
        self.doolist = DooList::new();
        let _ = self.undo.clear();
    }
}

} // verus!
