//! Input events and the devices they come from.

pub mod capability;
pub mod event;
pub mod output_event;
pub mod source;
