//! The decisions of the logbook's desktop front end: reading what the
//! operator typed (dates, frequencies, filters), paging, the editor's
//! unsaved-work rules, file paths and the messages shown in the status bar.
use vstd::prelude::*;

pub mod datetime_frequency;
pub mod editor;
pub mod filters;
pub mod import_flow;
pub mod messages;
pub mod paths;
pub mod qso_editor;
pub mod qso_list;
pub mod status;

verus! {
} // verus!
