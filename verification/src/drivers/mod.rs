//! Drivers of the supported devices.

pub mod iio_imu;
pub mod msi_claw;
pub mod oxp_hid;
pub mod rog_ally;
