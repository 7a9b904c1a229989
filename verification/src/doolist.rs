use vstd::prelude::*;

use crate::errors::DooError;
use crate::lists::Navigate;
use crate::select_list::SelectList;

verus! {

/// A single task: a label and a completion flag, both rewritable in place.
#[derive(Clone)]
pub struct DooItem {
    pub label: String,
    pub complete: bool,
}

impl DooItem {
    pub fn new(label: String, complete: bool) -> (item: DooItem)
        ensures
            item.label == label,
            item.complete == complete,
    {
        DooItem { label, complete }
    }

    pub fn change_label(&mut self, label: String)
        ensures
            final(self).label == label,
            final(self).complete == old(self).complete,
    {
        self.label = label
    }

    /// Flips the completion flag.
    pub fn mark(&mut self)
        ensures
            final(self).label == old(self).label,
            final(self).complete == !old(self).complete,
    {
        self.complete = !self.complete
    }
}

/// The given task with its completion flag flipped.
pub open spec fn marked(item: DooItem) -> DooItem {
    DooItem { label: item.label, complete: !item.complete }
}

/// The given task with its label replaced.
pub open spec fn relabeled(item: DooItem, label: String) -> DooItem {
    DooItem { label: label, complete: item.complete }
}

/// The task list: an ordered, selectable sequence of tasks together with an
/// optional display name and an optional backing file path. The name and the
/// path are plain metadata; the selection rules live in the embedded
/// `SelectList`.
pub struct DooList {
    pub name: Option<String>,
    pub list: SelectList<DooItem>,
    pub path: Option<String>,
}

impl DooList {
    pub open spec fn wf(&self) -> bool {
        self.list.wf()
    }

    pub fn new() -> (l: DooList)
        ensures
            l.name is None,
            l.path is None,
            l.list@.items == Seq::<DooItem>::empty(),
            l.list@.cursor is None,
            l.wf(),
    {
        DooList { name: None, list: SelectList::new(), path: None }
    }

    /// Rebuilds a task list from plain parts, as handed over by whatever
    /// loaded them: the first task is selected when there is one, so the
    /// list arrives in a navigable state.
    pub fn from_parts(name: Option<String>, items: Vec<DooItem>, path: Option<String>) -> (l:
        DooList)
        ensures
            l.name == name,
            l.path == path,
            l.list@.items == items@,
            l.list@.cursor == (if items@.len() == 0 {
                Option::<int>::None
            } else {
                Option::<int>::Some(0int)
            }),
            l.wf(),
    {
        let cursor: Option<usize> = if items.len() == 0 {
            None
        } else {
            Some(0)
        };
        DooList { name, list: SelectList { items, cursor }, path }
    }

    /// Sets the display name; always succeeds and touches nothing else.
    pub fn change_name(&mut self, new_name: String)
        ensures
            final(self).name == Some(new_name),
            final(self).list@ == old(self).list@,
            final(self).path == old(self).path,
    {
        self.name = Some(new_name);
    }

    /// Appends a new, incomplete task with the given label and selects it.
    pub fn add_from_label(&mut self, label: String)
        ensures
            final(self).list@ == old(self).list@.inserted_at_end(
                (DooItem { label: label, complete: false }),
            ),
            final(self).name == old(self).name,
            final(self).path == old(self).path,
            final(self).wf(),
    {
        self.list.insert_at_end(DooItem { label, complete: false });
    }

    /// Appends an existing task and selects it.
    pub fn add_from_item(&mut self, item: DooItem)
        ensures
            final(self).list@ == old(self).list@.inserted_at_end(item),
            final(self).name == old(self).name,
            final(self).path == old(self).path,
            final(self).wf(),
    {
        self.list.insert_at_end(item);
    }

    /// Removes and returns the selected task, repairing the selection; a
    /// no-op returning `None` while nothing is selected.
    pub fn remove(&mut self) -> (removed: Option<DooItem>)
        requires
            old(self).wf(),
        ensures
            final(self).wf(),
            final(self).name == old(self).name,
            final(self).path == old(self).path,
            old(self).list@.cursor is None ==> removed is None && final(self).list@ == old(
                self,
            ).list@,
            old(self).list@.cursor matches Some(i) ==> {
                &&& removed matches Some(item) && item == old(self).list@.items[i]
                &&& final(self).list@ == old(self).list@.removed_at(i)
            },
    {
        self.list.remove_selected()
    }

    /// Flips the completion flag of the selected task, or reports
    /// `NoSelection` (leaving the list unchanged) while nothing is selected.
    pub fn mark_selection(&mut self) -> (r: Result<(), DooError>)
        requires
            old(self).wf(),
        ensures
            final(self).wf(),
            final(self).name == old(self).name,
            final(self).path == old(self).path,
            old(self).list@.cursor is None ==> r == Err::<(), DooError>(DooError::NoSelection)
                && final(self).list@ == old(self).list@,
            old(self).list@.cursor matches Some(i) ==> {
                &&& r is Ok
                &&& final(self).list@.items == old(self).list@.items.update(
                    i,
                    marked(old(self).list@.items[i]),
                )
                &&& final(self).list@.cursor == old(self).list@.cursor
            },
    {
        match self.list.cursor {
            None => Err(DooError::NoSelection),
            Some(_) => {
                let item = self.list.selected_mut();
                item.mark();
                Ok(())
            },
        }
    }

    /// Rewrites the label of the selected task, or reports `NoSelection`
    /// (leaving the list unchanged) while nothing is selected.
    pub fn change_label_name(&mut self, label: String) -> (r: Result<(), DooError>)
        requires
            old(self).wf(),
        ensures
            final(self).wf(),
            final(self).name == old(self).name,
            final(self).path == old(self).path,
            old(self).list@.cursor is None ==> r == Err::<(), DooError>(DooError::NoSelection)
                && final(self).list@ == old(self).list@,
            old(self).list@.cursor matches Some(i) ==> {
                &&& r is Ok
                &&& final(self).list@.items == old(self).list@.items.update(
                    i,
                    relabeled(old(self).list@.items[i], label),
                )
                &&& final(self).list@.cursor == old(self).list@.cursor
            },
    {
        match self.list.cursor {
            None => Err(DooError::NoSelection),
            Some(_) => {
                let item = self.list.selected_mut();
                item.change_label(label);
                Ok(())
            },
        }
    }
}

impl Navigate for DooList {
    open spec fn nav_len(&self) -> int {
        self.list@.items.len() as int
    }

    open spec fn nav_cursor(&self) -> Option<int> {
        self.list@.cursor
    }

    open spec fn nav_wf(&self) -> bool {
        self.wf()
    }

    open spec fn same_but_cursor(&self, other: &Self) -> bool {
        &&& other.list@.items == self.list@.items
        &&& other.name == self.name
        &&& other.path == self.path
    }

    fn previous(&mut self) {
        self.list.move_previous();
    }

    fn next(&mut self) {
        self.list.move_next();
    }
}

} // verus!
