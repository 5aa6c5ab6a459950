//! Gamepad interface of MSI Claw handhelds.

pub mod driver;
#[allow(unused_imports)]
pub mod laws;
