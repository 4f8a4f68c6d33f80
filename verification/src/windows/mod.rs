//! The application's windows: which kinds there are and how each is set up.

pub mod ids;
pub mod manager;
