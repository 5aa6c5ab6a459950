//! Events that flow from an application to a device.

use vstd::prelude::*;

verus! {

/// An event of the Linux input subsystem.
#[derive(Clone, Copy, Debug, PartialEq, Eq, Structural)]
pub struct EvdevEvent {
    pub event_type: u16,
    pub code: u16,
    pub value: i32,
}

/// What a DualSense output report says of rumble.
#[derive(Clone, Copy, Debug, PartialEq, Eq, Structural)]
pub struct DualSenseReport {
    pub use_rumble_not_haptics: bool,
    pub enable_improved_rumble_emulation: bool,
    pub rumble_emulation_left: u8,
    pub rumble_emulation_right: u8,
}

/// What a Steam Deck rumble report says.
#[derive(Clone, Copy, Debug, PartialEq, Eq, Structural)]
pub struct SteamDeckRumbleReport {
    pub left_speed: u16,
    pub right_speed: u16,
}

/// An event that flows from an application to a device.
#[derive(Clone, Copy, Debug, PartialEq, Eq, Structural)]
pub enum OutputEvent {
    Evdev(EvdevEvent),
    Uinput,
    DualSense(DualSenseReport),
    SteamDeckHaptics,
    SteamDeckRumble(SteamDeckRumbleReport),
    Rumble { weak_magnitude: u16, strong_magnitude: u16 },
}

/// What a force feedback effect does.
#[derive(Clone, Copy, Debug, PartialEq, Eq, Structural)]
pub enum FFEffectKind {
    /// Both motors run.
    Rumble { strong_magnitude: u16, weak_magnitude: u16 },
    /// Any other effect. Motors alone cannot perform it.
    Other,
}

/// A force feedback effect.
#[derive(Clone, Copy, Debug, PartialEq, Eq, Structural)]
pub struct FFEffectData {
    pub kind: FFEffectKind,
}

/// The type of force feedback events.
pub const FORCE_FEEDBACK: u16 = 0x15;

/// The effect code and the value of a force feedback event. This rests on
/// `evdev::InputEvent::destructure`, of which it claims that an event made by
/// `evdev::InputEvent::new` is summarized as force feedback exactly if its type is 0x15, and then
/// with the code and the value that it was made with.
#[verifier::external_body]
pub(crate) fn force_feedback(event: EvdevEvent) -> (summary: Option<(u16, i32)>)
    ensures
        summary == (if event.event_type == FORCE_FEEDBACK {
            Some((event.code, event.value))
        } else {
            None
        }),
{
    match evdev::InputEvent::new(event.event_type, event.code, event.value).destructure() {
        evdev::EventSummary::ForceFeedback(_, code, value) => Some((code.0, value)),
        _ => None,
    }
}

} // verus!
