//! Pointer gestures: what was pressed and released, and what a release means.

pub mod state;
pub mod monitor;
pub mod release;
