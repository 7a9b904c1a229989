//! The core of a terminal-resident list manager: an ordered collection of
//! labeled, completable items with a single active selection, a bounded undo
//! buffer that makes deletion reversible, and a deduplicating, recency-ordered
//! ledger of previously opened list files. Screen rendering, key dispatch,
//! command parsing and persistence live outside this crate and drive it
//! through the operations defined here.

pub mod commands;
pub mod config;
pub mod doolist;
pub mod engine;
pub mod errors;
pub mod layout;
pub mod lists;
pub mod paths;
pub mod queue;
pub mod queues;
pub mod recent_files;
pub mod select_list;
pub mod text;
