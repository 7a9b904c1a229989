use vstd::prelude::*;

use crate::select_list::{next_cursor, previous_cursor};

verus! {

/// Cursor navigation shared by the task list and the recency ledger: both
/// step their selection by the same non-wrapping rule, stated here once over
/// each implementor's navigated length and cursor.
pub trait Navigate {
    /// How many items are navigated over.
    spec fn nav_len(&self) -> int;

    /// The current cursor of the navigated sequence.
    spec fn nav_cursor(&self) -> Option<int>;

    /// Validity of the navigated state.
    spec fn nav_wf(&self) -> bool;

    /// Everything apart from the cursor agrees between `self` and `other`.
    spec fn same_but_cursor(&self, other: &Self) -> bool;

    /// Steps the cursor backward by one, clamped at index 0, never wrapping;
    /// selects index 0 when unselected; a safe no-op when empty.
    fn previous(&mut self)
        requires
            old(self).nav_wf(),
        ensures
            final(self).nav_wf(),
            old(self).same_but_cursor(final(self)),
            final(self).nav_len() == old(self).nav_len(),
            final(self).nav_cursor() == previous_cursor(
                old(self).nav_len(),
                old(self).nav_cursor(),
            ),
    ;

    /// Steps the cursor forward by one, clamped at the last index, never
    /// wrapping; selects index 0 when unselected; a safe no-op when empty.
    fn next(&mut self)
        requires
            old(self).nav_wf(),
        ensures
            final(self).nav_wf(),
            old(self).same_but_cursor(final(self)),
            final(self).nav_len() == old(self).nav_len(),
            final(self).nav_cursor() == next_cursor(old(self).nav_len(), old(self).nav_cursor()),
    ;
}

/// Marker for state that the surrounding process can persist.
pub trait Saveable {
    fn save();
}

/// Marker for state that the surrounding process can restore.
pub trait Loadable {
    fn load();
}

/// Marker for state whose highlighted entry the surrounding process can take.
pub trait Selectable {
    fn select();
}

} // verus!
