//! Seat and device logic of a multiseat manager: which seat a device belongs
//! to, how devices are grouped for display, how seats are named and numbered,
//! and the state machines of the manager's dialogs and panels.
use vstd::prelude::*;

pub mod text;
pub mod udev;
pub mod icons;
pub mod utils;
pub mod options;
pub mod input;
pub mod components;
pub mod manager;

verus! {

/// The seat that every device belongs to unless udev tags it otherwise.
pub const DEFAULT_SEAT: &'static str = "seat0";

} // verus!
