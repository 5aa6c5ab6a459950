//! Events of inertial sensors.

use vstd::prelude::*;

use crate::float::Float;

verus! {

/// Events that can be emitted by an IMU. The `u64` field carries a timestamp in microseconds.
#[derive(Clone, Copy, Debug, PartialEq, Eq, Structural)]
pub enum Event {
    /// Accelerometer events measure the acceleration in a particular direction
    /// in units of meters per second squared. It is generally used to determine
    /// which direction is "down" due to the accelerating force of gravity.
    Accelerometer(AxisData, u64),
    /// Gyro events measure the angular velocity in radians per second.
    Gyro(AxisData, u64),
}

/// AxisData represents the state of the accelerometer or gyro (x, y, z) values
#[derive(Clone, Copy, Debug, PartialEq, Eq, Structural)]
pub struct AxisData {
    pub roll: AxisValue,
    pub pitch: AxisValue,
    pub yaw: AxisValue,
}

/// The value of an axis, as the sum that gives it: `mx * x + my * y + mz * z`, where `x`, `y` and
/// `z` are the readings of the sensor. A reading that is missing is zero.
#[derive(Clone, Copy, Debug, PartialEq, Eq, Structural)]
pub struct AxisValue {
    pub mx: Float,
    pub my: Float,
    pub mz: Float,
    pub x: Option<Reading>,
    pub y: Option<Reading>,
    pub z: Option<Reading>,
}

/// The reading of a channel: `count` times `scale`.
#[derive(Clone, Copy, Debug, PartialEq, Eq, Structural)]
pub struct Reading {
    /// The raw value, with the offset added.
    pub count: i64,
    pub scale: Float,
}

} // verus!
