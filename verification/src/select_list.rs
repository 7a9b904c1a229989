use vstd::prelude::*;

use crate::errors::DooError;

verus! {

/// The mathematical model of a selectable sequence: the items in order,
/// and a cursor that is `None` exactly when nothing is selected.
#[verifier::ext_equal]
pub struct SelView<T> {
    pub items: Seq<T>,
    pub cursor: Option<int>,
}

/// The non-wrapping forward step of the cursor: on an empty sequence nothing
/// moves; an absent cursor lands on index 0; otherwise the cursor advances by
/// one, clamped at the last index.
pub open spec fn next_cursor(len: int, cursor: Option<int>) -> Option<int> {
    if len == 0 {
        cursor
    } else {
        match cursor {
            None => Some(0int),
            Some(i) => if i >= len - 1 {
                Some(i)
            } else {
                Some(i + 1)
            },
        }
    }
}

/// The non-wrapping backward step of the cursor: on an empty sequence nothing
/// moves; an absent cursor lands on index 0; otherwise the cursor retreats by
/// one, clamped at index 0.
pub open spec fn previous_cursor(len: int, cursor: Option<int>) -> Option<int> {
    if len == 0 {
        cursor
    } else {
        match cursor {
            None => Some(0int),
            Some(i) => if i <= 0 {
                Some(i)
            } else {
                Some(i - 1)
            },
        }
    }
}

impl<T> SelView<T> {
    /// Selection validity: the cursor is `None` iff the sequence is empty,
    /// and otherwise an in-bounds index.
    pub open spec fn wf(self) -> bool {
        &&& (self.cursor is None <==> self.items.len() == 0)
        &&& (self.cursor matches Some(i) ==> 0 <= i < self.items.len())
    }

    /// Appending an item always selects the new last index.
    pub open spec fn inserted_at_end(self, item: T) -> SelView<T> {
        SelView { items: self.items.push(item), cursor: Some(self.items.len() as int) }
    }

    /// Cursor repair after removing the element at `i`: an emptied sequence
    /// loses its selection; removing the last index moves the selection to
    /// the new last index; otherwise the selection keeps its numeric index,
    /// which now names the removed element's successor.
    pub open spec fn removed_at(self, i: int) -> SelView<T> {
        SelView {
            items: self.items.remove(i),
            cursor: if self.items.len() == 1 {
                None
            } else if i == self.items.len() - 1 {
                Some(i - 1)
            } else {
                Some(i)
            },
        }
    }

    pub open spec fn moved_next(self) -> SelView<T> {
        SelView { items: self.items, cursor: next_cursor(self.items.len() as int, self.cursor) }
    }

    pub open spec fn moved_previous(self) -> SelView<T> {
        SelView {
            items: self.items,
            cursor: previous_cursor(self.items.len() as int, self.cursor),
        }
    }

    pub open spec fn selected_at(self, i: int) -> SelView<T> {
        SelView { items: self.items, cursor: Some(i) }
    }
}

/// Selection validity survives every operation: inserting at the end,
/// removing at the cursor, stepping in either direction, and selecting an
/// in-bounds index each take a valid sequence to a valid sequence. Together
/// with the constructors this pins the invariant: the cursor is `None` iff
/// the sequence is empty, and otherwise in bounds.
pub proof fn lemma_selection_validity<T>(v: SelView<T>, item: T, i: int)
    requires
        v.wf(),
    ensures
        v.inserted_at_end(item).wf(),
        v.cursor matches Some(c) ==> v.removed_at(c).wf(),
        v.moved_next().wf(),
        v.moved_previous().wf(),
        0 <= i < v.items.len() ==> v.selected_at(i).wf(),
{
}

/// Removing the selected last element and then reinserting it at the end
/// restores the original sequence, selection included: deletion at the end
/// of a list is exactly reversed by an append-and-select-last restore.
pub proof fn lemma_remove_then_restore<T>(v: SelView<T>)
    requires
        v.wf(),
        v.cursor == Some(v.items.len() - 1),
    ensures
        v.removed_at(v.items.len() - 1).inserted_at_end(v.items.last()) == v,
{
    let n = v.items.len() as int;
    let restored = v.removed_at(n - 1).inserted_at_end(v.items.last());
    assert(restored.items =~= v.items);
    assert(restored =~= v);
}

/// Navigation does not wrap: a forward step with the last index selected,
/// and a backward step with index 0 selected, leave the selection unchanged.
pub proof fn lemma_navigation_clamps(len: int)
    requires
        len > 0,
    ensures
        next_cursor(len, Some(len - 1)) == Some(len - 1),
        previous_cursor(len, Some(0int)) == Some(0int),
{
}

/// An ordered sequence of items with at most one active selection, and the
/// selection-adjustment rules applied on every mutation. The task list and
/// the recency ledger both embed one of these.
pub struct SelectList<T> {
    pub items: Vec<T>,
    pub cursor: Option<usize>,
}

impl<T> View for SelectList<T> {
    type V = SelView<T>;

    open spec fn view(&self) -> SelView<T> {
        SelView {
            items: self.items@,
            cursor: match self.cursor {
                Some(i) => Some(i as int),
                None => None,
            },
        }
    }
}

impl<T> SelectList<T> {
    pub open spec fn wf(&self) -> bool {
        self@.wf()
    }

    pub fn new() -> (list: SelectList<T>)
        ensures
            list@.items == Seq::<T>::empty(),
            list@.cursor is None,
            list.wf(),
    {
        SelectList { items: Vec::new(), cursor: None }
    }

    pub fn len(&self) -> (n: usize)
        ensures
            n == self@.items.len(),
    {
        self.items.len()
    }

    pub fn is_empty(&self) -> (empty: bool)
        ensures
            empty == (self@.items.len() == 0),
    {
        self.items.len() == 0
    }

    pub fn get(&self, i: usize) -> (item: &T)
        requires
            i < self@.items.len(),
        ensures
            *item == self@.items[i as int],
    {
        &self.items[i]
    }

    pub fn selected_index(&self) -> (r: Option<usize>)
        ensures
            match r {
                Some(i) => self@.cursor == Some(i as int),
                None => self@.cursor is None,
            },
    {
        self.cursor
    }

    /// Read access to the currently selected item, `None` while unselected.
    pub fn selected(&self) -> (r: Option<&T>)
        requires
            self.wf(),
        ensures
            match r {
                Some(item) => self@.cursor matches Some(i) && *item == self@.items[i],
                None => self@.cursor is None,
            },
    {
        match self.cursor {
            Some(i) => Some(&self.items[i]),
            None => None,
        }
    }

    /// Write access to the currently selected item.
    pub fn selected_mut(&mut self) -> (item: &mut T)
        requires
            old(self).wf(),
            old(self)@.cursor is Some,
        ensures
            old(self)@.cursor matches Some(i) ==> {
                &&& *item == old(self)@.items[i]
                &&& final(self)@.items == old(self)@.items.update(i, *final(item))
                &&& final(self)@.cursor == old(self)@.cursor
            },
            final(self).wf(),
    {
        let i = match self.cursor {
            Some(i) => i,
            None => 0,
        };
        &mut self.items[i]
    }

    /// Appends the item and selects it. Never fails.
    pub fn insert_at_end(&mut self, item: T)
        ensures
            final(self)@ == old(self)@.inserted_at_end(item),
            final(self).wf(),
    {
        self.items.push(item);
        self.cursor = Some(self.items.len() - 1);
    }

    /// Removes and returns the selected item, repairing the selection;
    /// a no-op returning `None` while nothing is selected.
    pub fn remove_selected(&mut self) -> (removed: Option<T>)
        requires
            old(self).wf(),
        ensures
            final(self).wf(),
            old(self)@.cursor is None ==> removed is None && final(self)@ == old(self)@,
            old(self)@.cursor matches Some(i) ==> {
                &&& removed matches Some(item) && item == old(self)@.items[i]
                &&& final(self)@ == old(self)@.removed_at(i)
            },
    {
        match self.cursor {
            None => None,
            Some(i) => {
                let item = self.items.remove(i);
                if self.items.len() == 0 {
                    self.cursor = None;
                } else if i == self.items.len() {
                    self.cursor = Some(i - 1);
                }
                Some(item)
            },
        }
    }

    /// Advances the selection by one without wrapping; selects index 0 when
    /// unselected; a safe no-op on an empty sequence.
    pub fn move_next(&mut self)
        requires
            old(self).wf(),
        ensures
            final(self)@ == old(self)@.moved_next(),
            final(self).wf(),
    {
        if self.items.len() != 0 {
            let i = match self.cursor {
                Some(i) => if i >= self.items.len() - 1 {
                    i
                } else {
                    i + 1
                },
                None => 0,
            };
            self.cursor = Some(i);
        }
    }

    /// Retreats the selection by one without wrapping; selects index 0 when
    /// unselected; a safe no-op on an empty sequence.
    pub fn move_previous(&mut self)
        requires
            old(self).wf(),
        ensures
            final(self)@ == old(self)@.moved_previous(),
            final(self).wf(),
    {
        if self.items.len() != 0 {
            let i = match self.cursor {
                Some(i) => if i == 0 {
                    i
                } else {
                    i - 1
                },
                None => 0,
            };
            self.cursor = Some(i);
        }
    }

    /// Sets the selection directly; rejected with `OutOfRange` when the index
    /// is at or past the end, leaving the state unchanged.
    pub fn select_at(&mut self, i: usize) -> (r: Result<(), DooError>)
        requires
            old(self).wf(),
        ensures
            final(self).wf(),
            i < old(self)@.items.len() ==> r is Ok && final(self)@ == old(self)@.selected_at(
                i as int,
            ),
            i >= old(self)@.items.len() ==> r == Err::<(), DooError>(DooError::OutOfRange)
                && final(self)@ == old(self)@,
    {
        if i < self.items.len() {
            self.cursor = Some(i);
            Ok(())
        } else {
            Err(DooError::OutOfRange)
        }
    }
}

} // verus!
