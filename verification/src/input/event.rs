//! Events in the form in which the rest of the daemon handles them.

use vstd::prelude::*;

use crate::drivers::iio_imu::event::AxisValue;

use super::capability::Capability;

verus! {

/// A raw reading together with the range over which it is normalized.
#[allow(inconsistent_fields)]
#[derive(Clone, Copy, Debug, PartialEq, Eq, Structural)]
pub enum Normalized {
    /// `raw` over a range around zero, with the sign turned where `inverted`.
    Signed { raw: i32, min: i32, max: i32, inverted: bool },
    /// `raw` over the range from zero to `max`.
    Unsigned { raw: u32, max: u32 },
}

/// How a sensor value is converted into the unit of the event.
#[derive(Clone, Copy, Debug, PartialEq, Eq, Structural)]
pub enum Conversion {
    /// The value stays as it is.
    Unchanged,
    /// The value is multiplied by one over `numerator / denominator`, the size of a unit.
    Units { numerator: u32, denominator: u32 },
    /// The value is multiplied by `(180 / pi) / (numerator / denominator)`: it goes from radians to
    /// units of that many degrees.
    DegreeUnits { numerator: u32, denominator: u32 },
    /// The value is multiplied by `180 / pi`, then by `times`.
    DegreesTimes { times: u32 },
}

/// A sensor value and its conversion.
#[derive(Clone, Copy, Debug, PartialEq, Eq, Structural)]
pub struct Converted {
    pub value: AxisValue,
    pub conversion: Conversion,
}

/// The value of an event.
#[allow(inconsistent_fields)]
#[derive(Clone, Copy, Debug, PartialEq, Eq, Structural)]
pub enum InputValue {
    Bool(bool),
    Float(Normalized),
    Vector2 { x: Option<Normalized>, y: Option<Normalized> },
    Vector3 { x: Option<Converted>, y: Option<Converted>, z: Option<Converted> },
}

/// An event in the form in which the rest of the daemon handles it.
#[derive(Clone, Copy, Debug, PartialEq, Eq, Structural)]
pub struct NativeEvent {
    pub capability: Capability,
    pub value: InputValue,
}

impl NativeEvent {
    /// An event of `capability` with `value`.
    pub fn new(capability: Capability, value: InputValue) -> (event: Self)
        ensures
            event == (NativeEvent { capability, value }),
    {
        NativeEvent { capability, value }
    }
}

} // verus!
