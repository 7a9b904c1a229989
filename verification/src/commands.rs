use vstd::prelude::*;

use crate::doolist::{DooItem, DooList};

verus! {

/// The input modes of the surrounding terminal program; the dispatcher that
/// feeds keys into them lives outside this crate.
#[derive(Clone, Copy, Debug)]
pub enum Mode {
    Search,
    Select,
    Command,
    Input,
}

/// The screens the surrounding terminal program can show.
#[derive(Clone, Copy, Debug)]
pub enum Screen {
    DooList,
    Help,
    Recents,
}

/// Starts a fresh list: the backing path is forgotten and the list replaced
/// by an empty, unnamed one.
pub fn new(doolist: &mut DooList, current_path: &mut Option<String>)
    ensures
        *final(current_path) is None,
        final(doolist).name is None,
        final(doolist).path is None,
        final(doolist).list@.items == Seq::<DooItem>::empty(),
        final(doolist).list@.cursor is None,
        final(doolist).wf(),
{
    *current_path = None;
    *doolist = DooList::new();
}

/// Renames the list when a name was given; without one nothing changes.
pub fn rename(input: Option<&&str>, doolist_name: &mut Option<String>)
    ensures
        input matches Some(name) ==> (*final(doolist_name)) matches Some(n) && n@ == name@,
        input is None ==> *final(doolist_name) == *old(doolist_name),
{
    if let Some(name) = input {
        *doolist_name = Some((*name).to_owned());
    }
}

/// Switches to the help screen, back in selection mode.
pub fn help(screen: &mut Screen, mode: &mut Mode)
    ensures
        *final(screen) is Help,
        *final(mode) is Select,
{
    *screen = Screen::Help;
    *mode = Mode::Select;
}

/// Switches to the recent-files screen, back in selection mode.
pub fn recent(screen: &mut Screen, mode: &mut Mode)
    ensures
        *final(screen) is Recents,
        *final(mode) is Select,
{
    *screen = Screen::Recents;
    *mode = Mode::Select;
}

/// Asks the surrounding loop to stop.
pub fn quit(quit_state: &mut bool)
    ensures
        *final(quit_state),
{
    *quit_state = true;
}

} // verus!
