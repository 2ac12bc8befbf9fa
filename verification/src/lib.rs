//! A verified library for an amateur-radio logbook: ADIF interchange,
//! QSO and digital-mode metadata validation, and the decisions around the
//! logbook store and its user interface.
use vstd::prelude::*;

pub mod adif;
pub mod calendar;
pub mod config;
pub mod database;
pub mod frequency;
pub mod logbook;
pub mod logging;
pub mod domain;
pub mod text;

verus! {
} // verus!
