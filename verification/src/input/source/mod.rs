//! Devices from which input events come.

pub mod hidraw;
pub mod iio;
