//! What the user can configure.

pub mod model;
pub mod store;
