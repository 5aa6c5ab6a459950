//! Devices behind raw HID nodes.

#[allow(unused_imports)]
pub mod laws;
pub mod oxp_hid;
pub mod oxp_x1_hid;
pub mod rog_ally;
