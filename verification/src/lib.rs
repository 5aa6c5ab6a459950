//! Decision logic of an input device daemon.
//!
//! The library reads reports and descriptions of handheld controllers, decides which events they
//! stand for, and decides which commands, attributes and files configure a device. It performs no
//! input or output itself: what was read comes in as plain values, and what has to be written is
//! handed back.

pub mod drivers;
pub mod float;
pub mod input;
#[allow(unused_imports)]
pub mod laws;
pub mod table;
pub mod text;
pub mod udev;
