//! Inertial sensors of the Industrial I/O subsystem.

pub mod buffer;
pub mod driver;
pub mod event;
pub mod info;
#[allow(unused_imports)]
pub mod laws;
#[allow(unused_imports)]
pub mod operations;
pub mod rate;
pub mod trigger;
