//! Gamepad interface of ROG Ally handhelds.

pub mod driver;
#[allow(unused_imports)]
pub mod laws;
