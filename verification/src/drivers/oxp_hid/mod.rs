//! Vendor HID interface of OneXPlayer handhelds.

pub mod driver;
pub mod event;
#[allow(unused_imports)]
pub mod laws;
