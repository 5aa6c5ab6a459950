//! Inertial sensors as sources of events.

pub mod accel_gyro_3d;
pub mod bmi_imu;
pub mod imu;
#[allow(unused_imports)]
pub mod laws;
