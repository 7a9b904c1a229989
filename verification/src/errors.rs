use vstd::prelude::*;

verus! {

/// The failure conditions of the list engine and its containers.
///
/// Every error here is recoverable: the operation that reports it leaves
/// the state it was applied to unchanged, except where a contract says
/// otherwise (a deletion that could not be recorded still deletes).
#[derive(Clone, Copy, Debug, PartialEq, Eq, Structural)]
pub enum DooError {
    /// An operation that needs an active selection ran while nothing was selected.
    NoSelection,
    /// A capped queue was asked to accept an item while already at capacity.
    Full,
    /// An explicit selection index was at or past the end of the sequence.
    OutOfRange,
}

} // verus!
