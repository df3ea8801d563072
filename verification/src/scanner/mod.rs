//! The scanner protocols.

pub mod hid_pos;
pub mod snapi;
pub mod snapi_direct;
