//! What the user interface may ask of the application, as far as it is
//! decided here.

pub mod settings;
pub mod windows;
