//! Screen capture: hotkeys, rectangles and the way from a request to the
//! pixels that are taken.

pub mod capture;
pub mod error;
pub mod hotkeys;
pub mod request;
pub mod response;
pub mod route;
pub mod transform;
pub mod window_lookup;
