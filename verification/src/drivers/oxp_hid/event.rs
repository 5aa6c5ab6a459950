//! Events of the OneXPlayer vendor HID interface.

use vstd::prelude::*;

verus! {

/// Events that can be emitted by the OXP HID driver
#[derive(Clone, Copy, Debug, PartialEq, Eq, Structural)]
pub enum Event {
    Button(ButtonEvent),
    Axis(AxisEvent),
    Trigger(TriggerEvent),
}

/// Binary input contains either pressed or unpressed
#[derive(Clone, Copy, Debug, PartialEq, Eq, Structural)]
pub struct BinaryInput {
    pub pressed: bool,
}

/// Axis input contains signed 16-bit (x, y) values for joysticks
#[derive(Clone, Copy, Debug, PartialEq, Eq, Structural)]
pub struct AxisInput {
    pub x: i16,
    pub y: i16,
}

/// Trigger input contains an unsigned 8-bit value (0-255)
#[derive(Clone, Copy, Debug, PartialEq, Eq, Structural)]
pub struct TriggerInput {
    pub value: u8,
}

/// GamepadButton events represent binary button presses.
/// In non-intercept mode, only M1/M2/Keyboard/Guide are reported.
/// In intercept mode, all gamepad buttons come through vendor HID.
#[derive(Clone, Copy, Debug, PartialEq, Eq, Structural)]
pub enum ButtonEvent {
    /// A / South
    A(BinaryInput),
    /// B / East
    B(BinaryInput),
    /// X / West
    X(BinaryInput),
    /// Y / North
    Y(BinaryInput),
    /// Left bumper
    LB(BinaryInput),
    /// Right bumper
    RB(BinaryInput),
    /// Start / Menu
    Start(BinaryInput),
    /// Select / View
    Select(BinaryInput),
    /// Left stick click
    LSClick(BinaryInput),
    /// Right stick click
    RSClick(BinaryInput),
    /// D-pad up
    DPadUp(BinaryInput),
    /// D-pad down
    DPadDown(BinaryInput),
    /// D-pad left
    DPadLeft(BinaryInput),
    /// D-pad right
    DPadRight(BinaryInput),
    /// M1 back paddle (left on X1 Mini, right on Apex in intercept mode)
    M1(BinaryInput),
    /// M2 back paddle (right on X1 Mini, left on Apex in intercept mode)
    M2(BinaryInput),
    /// Keyboard button
    Keyboard(BinaryInput),
    /// Guide/Home button
    Guide(BinaryInput),
}

/// Axis events for joystick analog input (intercept mode only)
#[derive(Clone, Copy, Debug, PartialEq, Eq, Structural)]
pub enum AxisEvent {
    LStick(AxisInput),
    RStick(AxisInput),
}

/// Trigger events for analog trigger input (intercept mode only)
#[derive(Clone, Copy, Debug, PartialEq, Eq, Structural)]
pub enum TriggerEvent {
    LTrigger(TriggerInput),
    RTrigger(TriggerInput),
}

/// Button events of the OneXPlayer X1, which has extra buttons only
#[derive(Clone, Copy, Debug, PartialEq, Eq, Structural)]
pub enum GamepadButtonEvent {
    /// M1 back paddle
    M1(BinaryInput),
    /// M2 back paddle
    M2(BinaryInput),
    /// Keyboard button
    Keyboard(BinaryInput),
    /// Guide/Home button
    Guide(BinaryInput),
}

/// Events of the OneXPlayer X1
#[derive(Clone, Copy, Debug, PartialEq, Eq, Structural)]
pub enum X1Event {
    GamepadButton(GamepadButtonEvent),
}

/// The event of an extra button, as the X1 has it.
pub open spec fn extra_button(event: Event) -> Option<X1Event> {
    match event {
        Event::Button(ButtonEvent::M1(v)) => Some(X1Event::GamepadButton(GamepadButtonEvent::M1(v))),
        Event::Button(ButtonEvent::M2(v)) => Some(X1Event::GamepadButton(GamepadButtonEvent::M2(v))),
        Event::Button(ButtonEvent::Keyboard(v)) => Some(
            X1Event::GamepadButton(GamepadButtonEvent::Keyboard(v)),
        ),
        Event::Button(ButtonEvent::Guide(v)) => Some(
            X1Event::GamepadButton(GamepadButtonEvent::Guide(v)),
        ),
        _ => None,
    }
}

impl X1Event {
    /// The event of an extra button, as the X1 has it.
    pub fn of(event: Event) -> (x1: Option<X1Event>)
        ensures
            x1 == extra_button(event),
    {
        match event {
            Event::Button(ButtonEvent::M1(v)) => Some(
                X1Event::GamepadButton(GamepadButtonEvent::M1(v)),
            ),
            Event::Button(ButtonEvent::M2(v)) => Some(
                X1Event::GamepadButton(GamepadButtonEvent::M2(v)),
            ),
            Event::Button(ButtonEvent::Keyboard(v)) => Some(
                X1Event::GamepadButton(GamepadButtonEvent::Keyboard(v)),
            ),
            Event::Button(ButtonEvent::Guide(v)) => Some(
                X1Event::GamepadButton(GamepadButtonEvent::Guide(v)),
            ),
            _ => None,
        }
    }
}

} // verus!
