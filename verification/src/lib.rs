//! Gesture classification, release sequencing and screen geometry for a
//! selection-driven capture tool, with every rule stated as a contract.

use vstd::prelude::*;

pub mod ai;
pub mod commands;
pub mod geometry;
pub mod ocr;
pub mod selection;
pub mod settings;
pub mod text;
pub mod windows;

verus! {

/// Name under which the application presents itself.
pub const APP_NAME: &'static str = "SnapParse";

} // verus!
