//! Vendor HID interface of OneXPlayer handhelds as a source of events.

use std::collections::HashMap;

use vstd::prelude::*;

use crate::drivers::oxp_hid::driver;
use crate::drivers::oxp_hid::driver::{Driver, DriverError, PACKET_SIZE};
use crate::drivers::oxp_hid::event;
use crate::input::capability::{
    Capability, Gamepad, GamepadAxis, GamepadButton, GamepadTrigger, OutputCapability,
};
use crate::input::event::{InputValue, NativeEvent, Normalized};
use crate::input::output_event;
use crate::input::output_event::{EvdevEvent, FFEffectData, FFEffectKind, OutputEvent};

verus! {

broadcast use vstd::std_specs::hash::group_hash_axioms;

pub const AXIS_MIN: i32 = -32767;

pub const AXIS_MAX: i32 = 32767;

pub const TRIGGER_MAX: u32 = 255;

/// How many force feedback effects the device holds at most.
pub const MAX_FF_EFFECTS: i16 = 16;

/// OXP HID source device implementation.
/// Supports both non-intercept mode (extra buttons only) and full intercept
/// mode (all gamepad input through vendor HID).
/// Vibration output is handled via vendor HID 0xB3 command in both modes.
pub struct OxpHid {
    pub driver: Driver,
    pub intercept: bool,
    pub vendor_rumble: bool,
    pub ff_evdev_effects: HashMap<i16, FFEffectData>,
}

/// No more effect can be uploaded.
#[derive(Clone, Copy, Debug, PartialEq, Eq, Structural)]
pub enum UploadError {
    MaximumUploaded,
}

impl UploadError {
    /// What the error says.
    pub open spec fn text(self) -> Seq<char> {
        "Maximum FF effects uploaded"@
    }

    /// What the error says.
    pub fn message(&self) -> (message: String)
        ensures
            message@ == self.text(),
    {
        "Maximum FF effects uploaded".to_owned()
    }
}

/// The smallest id from `from` on that no effect has.
pub open spec fn free_id(effects: Map<i16, FFEffectData>, from: int) -> Option<i16>
    decreases MAX_FF_EFFECTS - from,
{
    if from >= MAX_FF_EFFECTS {
        None
    } else if !effects.contains_key(from as i16) {
        Some(from as i16)
    } else {
        free_id(effects, from + 1)
    }
}

/// The greater of two motor speeds.
pub open spec fn strength(left: u8, right: u8) -> u8 {
    if left >= right {
        left
    } else {
        right
    }
}

/// The strength for two motor speeds of 16 bits.
pub open spec fn wide_strength(left: u16, right: u16) -> u8 {
    strength((left / 256) as u8, (right / 256) as u8)
}

/// The strength that an effect is played with, if it sets one.
pub open spec fn effect_strength(effect: FFEffectData, value: i32) -> Option<u8> {
    if value == 0 {
        Some(0u8)
    } else {
        match effect.kind {
            FFEffectKind::Rumble { strong_magnitude, weak_magnitude } => Some(
                wide_strength(strong_magnitude, weak_magnitude),
            ),
            FFEffectKind::Other => None,
        }
    }
}

/// The strength that an input event sets, if it is a force feedback event of a known effect.
pub open spec fn evdev_strength(effects: Map<i16, FFEffectData>, event: EvdevEvent) -> Option<u8> {
    let id = event.code as i16;
    if event.event_type == output_event::FORCE_FEEDBACK && effects.contains_key(id) {
        effect_strength(effects[id], event.value)
    } else {
        None
    }
}

/// The strength that an output event sets, if it sets one.
pub open spec fn output_strength(effects: Map<i16, FFEffectData>, event: OutputEvent) -> Option<
    u8,
> {
    match event {
        OutputEvent::Evdev(event) => evdev_strength(effects, event),
        OutputEvent::DualSense(report) => if report.use_rumble_not_haptics
            || report.enable_improved_rumble_emulation {
            Some(strength(report.rumble_emulation_left, report.rumble_emulation_right))
        } else {
            None
        },
        OutputEvent::SteamDeckRumble(report) => Some(
            wide_strength(report.left_speed, report.right_speed),
        ),
        OutputEvent::Rumble { weak_magnitude, strong_magnitude } => Some(
            wide_strength(strong_magnitude, weak_magnitude),
        ),
        OutputEvent::Uinput | OutputEvent::SteamDeckHaptics => None,
    }
}

/// The capability of a gamepad button.
pub open spec fn button_capability(button: GamepadButton) -> Capability {
    Capability::Gamepad(Gamepad::Button(button))
}

/// Capabilities in non-intercept mode (extra buttons only)
pub open spec fn capabilities_non_intercept() -> Seq<Capability> {
    seq![
        button_capability(GamepadButton::LeftPaddle1),
        button_capability(GamepadButton::RightPaddle1),
        button_capability(GamepadButton::Keyboard),
        button_capability(GamepadButton::Guide),
    ]
}

/// Capabilities in intercept mode (full gamepad)
pub open spec fn capabilities_intercept() -> Seq<Capability> {
    seq![
        button_capability(GamepadButton::South),
        button_capability(GamepadButton::East),
        button_capability(GamepadButton::West),
        button_capability(GamepadButton::North),
        button_capability(GamepadButton::LeftBumper),
        button_capability(GamepadButton::RightBumper),
        button_capability(GamepadButton::Start),
        button_capability(GamepadButton::Select),
        button_capability(GamepadButton::LeftStick),
        button_capability(GamepadButton::RightStick),
        button_capability(GamepadButton::DPadUp),
        button_capability(GamepadButton::DPadDown),
        button_capability(GamepadButton::DPadLeft),
        button_capability(GamepadButton::DPadRight),
        button_capability(GamepadButton::LeftPaddle1),
        button_capability(GamepadButton::RightPaddle1),
        button_capability(GamepadButton::Keyboard),
        button_capability(GamepadButton::Guide),
        Capability::Gamepad(Gamepad::Axis(GamepadAxis::LeftStick)),
        Capability::Gamepad(Gamepad::Axis(GamepadAxis::RightStick)),
        Capability::Gamepad(Gamepad::Trigger(GamepadTrigger::LeftTrigger)),
        Capability::Gamepad(Gamepad::Trigger(GamepadTrigger::RightTrigger)),
    ]
}

/// The gamepad button that a button of the device stands for, and its state.
pub open spec fn native_button(button: event::ButtonEvent) -> (GamepadButton, bool) {
    match button {
        event::ButtonEvent::A(v) => (GamepadButton::South, v.pressed),
        event::ButtonEvent::B(v) => (GamepadButton::East, v.pressed),
        event::ButtonEvent::X(v) => (GamepadButton::West, v.pressed),
        event::ButtonEvent::Y(v) => (GamepadButton::North, v.pressed),
        event::ButtonEvent::LB(v) => (GamepadButton::LeftBumper, v.pressed),
        event::ButtonEvent::RB(v) => (GamepadButton::RightBumper, v.pressed),
        event::ButtonEvent::Start(v) => (GamepadButton::Start, v.pressed),
        event::ButtonEvent::Select(v) => (GamepadButton::Select, v.pressed),
        event::ButtonEvent::LSClick(v) => (GamepadButton::LeftStick, v.pressed),
        event::ButtonEvent::RSClick(v) => (GamepadButton::RightStick, v.pressed),
        event::ButtonEvent::DPadUp(v) => (GamepadButton::DPadUp, v.pressed),
        event::ButtonEvent::DPadDown(v) => (GamepadButton::DPadDown, v.pressed),
        event::ButtonEvent::DPadLeft(v) => (GamepadButton::DPadLeft, v.pressed),
        event::ButtonEvent::DPadRight(v) => (GamepadButton::DPadRight, v.pressed),
        event::ButtonEvent::M1(v) => (GamepadButton::LeftPaddle1, v.pressed),
        event::ButtonEvent::M2(v) => (GamepadButton::RightPaddle1, v.pressed),
        event::ButtonEvent::Keyboard(v) => (GamepadButton::Keyboard, v.pressed),
        event::ButtonEvent::Guide(v) => (GamepadButton::Guide, v.pressed),
    }
}

/// The position of a stick. The device counts upwards, events count downwards.
pub open spec fn stick_value(value: event::AxisInput) -> InputValue {
    InputValue::Vector2 {
        x: Some(
            Normalized::Signed {
                raw: value.x as i32,
                min: AXIS_MIN,
                max: AXIS_MAX,
                inverted: false,
            },
        ),
        y: Some(
            Normalized::Signed {
                raw: value.y as i32,
                min: AXIS_MIN,
                max: AXIS_MAX,
                inverted: true,
            },
        ),
    }
}

/// The event that an event of the device stands for.
pub open spec fn native_event(event: event::Event) -> NativeEvent {
    match event {
        event::Event::Button(button) => NativeEvent {
            capability: button_capability(native_button(button).0),
            value: InputValue::Bool(native_button(button).1),
        },
        event::Event::Axis(event::AxisEvent::LStick(value)) => NativeEvent {
            capability: Capability::Gamepad(Gamepad::Axis(GamepadAxis::LeftStick)),
            value: stick_value(value),
        },
        event::Event::Axis(event::AxisEvent::RStick(value)) => NativeEvent {
            capability: Capability::Gamepad(Gamepad::Axis(GamepadAxis::RightStick)),
            value: stick_value(value),
        },
        event::Event::Trigger(event::TriggerEvent::LTrigger(value)) => NativeEvent {
            capability: Capability::Gamepad(Gamepad::Trigger(GamepadTrigger::LeftTrigger)),
            value: InputValue::Float(
                Normalized::Unsigned { raw: value.value as u32, max: TRIGGER_MAX },
            ),
        },
        event::Event::Trigger(event::TriggerEvent::RTrigger(value)) => NativeEvent {
            capability: Capability::Gamepad(Gamepad::Trigger(GamepadTrigger::RightTrigger)),
            value: InputValue::Float(
                Normalized::Unsigned { raw: value.value as u32, max: TRIGGER_MAX },
            ),
        },
    }
}

/// The events that some events of the device stand for.
pub open spec fn native_events(events: Seq<event::Event>) -> Seq<NativeEvent> {
    events.map_values(|event: event::Event| native_event(event))
}

impl OxpHid {
    /// All effects have an id that can be given.
    pub open spec fn wf(&self) -> bool {
        forall|id: i16| #[trigger]
            self.ff_evdev_effects@.contains_key(id) ==> 0 <= id < MAX_FF_EFFECTS
    }

    /// A source for the device at `path`, which has the given ids.
    pub fn new(
        path: String,
        vendor_id: u16,
        product_id: u16,
        intercept: bool,
        vendor_rumble: bool,
    ) -> (result: Result<Self, DriverError>)
        ensures
            result is Ok <==> vendor_id == driver::VID && product_id == driver::PID,
            match result {
                Ok(source) => {
                    &&& source.wf()
                    &&& !source.driver.initialized
                    &&& forall|i: int| 0 <= i < 37 ==> !source.driver.btn_state@[i]
                    &&& source.intercept == intercept
                    &&& source.vendor_rumble == vendor_rumble
                    &&& source.ff_evdev_effects@ == Map::<i16, FFEffectData>::empty()
                },
                Err(DriverError::NotOxpHid { path: named }) => named@ == path@,
            },
    {
        match Driver::new(path, vendor_id, product_id) {
            Ok(driver) => Ok(
                OxpHid { driver, intercept, vendor_rumble, ff_evdev_effects: HashMap::new() },
            ),
            Err(e) => Err(e),
        }
    }

    /// The smallest id that no effect has, or -1 where there is none.
    fn next_ff_effect_id(&self) -> (id: i16)
        ensures
            id == (match free_id(self.ff_evdev_effects@, 0) {
                Some(free) => free,
                None => -1i16,
            }),
    {
        let mut i: i16 = 0;
        while i < MAX_FF_EFFECTS
            invariant
                0 <= i <= MAX_FF_EFFECTS,
                free_id(self.ff_evdev_effects@, 0) == free_id(self.ff_evdev_effects@, i as int),
            decreases MAX_FF_EFFECTS - i,
        {
            if !self.ff_evdev_effects.contains_key(&i) {
                return i;
            }
            i = i + 1;
        }
        -1
    }

    /// Convert left/right motor speeds (0-255 each) to a single 0xB3 strength
    pub fn set_rumble(left: u8, right: u8) -> (sent: u8)
        ensures
            sent == strength(left, right),
    {
        if left >= right {
            left
        } else {
            right
        }
    }

    /// The strength that a force feedback event sets.
    fn process_evdev_ff(&self, input_event: EvdevEvent) -> (sent: Option<u8>)
        ensures
            sent == evdev_strength(self.ff_evdev_effects@, input_event),
    {
        let (code, value): (u16, i32) = match output_event::force_feedback(input_event) {
            Some((code, value)) => (code, value),
            None => {
                return None;
            },
        };
        let effect_id: i16 = code as i16;
        let effect_data = match self.ff_evdev_effects.get(&effect_id) {
            Some(effect_data) => effect_data,
            None => {
                return None;
            },
        };
        if value == 0 {
            return Some(Self::set_rumble(0, 0));
        }
        match effect_data.kind {
            FFEffectKind::Rumble { strong_magnitude, weak_magnitude } => {
                let left: u8 = (strong_magnitude / 256) as u8;
                let right: u8 = (weak_magnitude / 256) as u8;
                Some(Self::set_rumble(left, right))
            },
            FFEffectKind::Other => None,
        }
    }

    /// Reads an input report and gives the events that it stands for.
    pub fn poll(&mut self, report: &[u8; PACKET_SIZE], bytes_read: usize) -> (events: Vec<
        NativeEvent,
    >)
        ensures
            events@ == native_events(
                driver::button_events(
                    driver::changes(
                        old(self).driver.btn_state@,
                        driver::report_list(report@, bytes_read),
                    ),
                ),
            ),
            final(self).driver.btn_state@ == driver::state_after(
                old(self).driver.btn_state@,
                driver::report_list(report@, bytes_read),
            ),
            final(self).driver.initialized == old(self).driver.initialized,
            final(self).ff_evdev_effects == old(self).ff_evdev_effects,
            final(self).intercept == old(self).intercept,
            final(self).vendor_rumble == old(self).vendor_rumble,
    {
        let events = self.driver.poll(report, bytes_read);
        translate_events(events)
    }

    /// Returns the input capabilities of this device
    pub fn get_capabilities(&self) -> (capabilities: Vec<Capability>)
        ensures
            capabilities@ == (if self.intercept {
                capabilities_intercept()
            } else {
                capabilities_non_intercept()
            }),
    {
        if self.intercept {
            all_buttons_and_axes()
        } else {
            extra_buttons()
        }
    }

    /// Returns the output capabilities of this device
    pub fn get_output_capabilities(&self) -> (capabilities: Vec<OutputCapability>)
        ensures
            capabilities@ == (if self.vendor_rumble {
                seq![OutputCapability::ForceFeedback]
            } else {
                Seq::empty()
            }),
    {
        let mut capabilities: Vec<OutputCapability> = Vec::new();
        if self.vendor_rumble {
            capabilities.push(OutputCapability::ForceFeedback);
        }
        capabilities
    }

    /// The vibration strength to send to the device for an output event, if one is to be sent.
    /// Output events are events that flow from an application (like a game) to the physical
    /// input device, such as force feedback events.
    pub fn write_event(&self, event: OutputEvent) -> (sent: Option<u8>)
        ensures
            sent == (if self.vendor_rumble {
                output_strength(self.ff_evdev_effects@, event)
            } else {
                None
            }),
    {
        if !self.vendor_rumble {
            return None;
        }
        match event {
            OutputEvent::Evdev(input_event) => self.process_evdev_ff(input_event),
            OutputEvent::DualSense(report) => if report.use_rumble_not_haptics
                || report.enable_improved_rumble_emulation {
                Some(
                    Self::set_rumble(report.rumble_emulation_left, report.rumble_emulation_right),
                )
            } else {
                None
            },
            OutputEvent::SteamDeckRumble(report) => {
                let left: u8 = (report.left_speed / 256) as u8;
                let right: u8 = (report.right_speed / 256) as u8;
                Some(Self::set_rumble(left, right))
            },
            OutputEvent::Rumble { weak_magnitude, strong_magnitude } => {
                let left: u8 = (strong_magnitude / 256) as u8;
                let right: u8 = (weak_magnitude / 256) as u8;
                Some(Self::set_rumble(left, right))
            },
            OutputEvent::Uinput | OutputEvent::SteamDeckHaptics => None,
        }
    }

    /// Upload the given force feedback effect data to the source device.
    /// Returns a device-specific id of the uploaded effect if it is successful.
    pub fn upload_effect(&mut self, effect: FFEffectData) -> (result: Result<i16, UploadError>)
        requires
            old(self).wf(),
        ensures
            final(self).wf(),
            match result {
                Ok(id) => {
                    &&& free_id(old(self).ff_evdev_effects@, 0) == Some(id)
                    &&& final(self).ff_evdev_effects@ == old(self).ff_evdev_effects@.insert(
                        id,
                        effect,
                    )
                },
                Err(e) => {
                    &&& free_id(old(self).ff_evdev_effects@, 0) is None
                    &&& final(self).ff_evdev_effects == old(self).ff_evdev_effects
                },
            },
            final(self).driver == old(self).driver,
            final(self).intercept == old(self).intercept,
            final(self).vendor_rumble == old(self).vendor_rumble,
    {
        proof {
            lemma_free_id(self.ff_evdev_effects@, 0);
        }
        let id: i16 = self.next_ff_effect_id();
        if id == -1 {
            return Err(UploadError::MaximumUploaded);
        }
        self.ff_evdev_effects.insert(id, effect);
        Ok(id)
    }

    /// Update an existing force feedback effect with new data.
    pub fn update_effect(&mut self, effect_id: i16, effect: FFEffectData)
        requires
            old(self).wf(),
        ensures
            final(self).wf(),
            final(self).ff_evdev_effects@ == (if old(self).ff_evdev_effects@.contains_key(
                effect_id,
            ) {
                old(self).ff_evdev_effects@.insert(effect_id, effect)
            } else {
                old(self).ff_evdev_effects@
            }),
            final(self).driver == old(self).driver,
            final(self).intercept == old(self).intercept,
            final(self).vendor_rumble == old(self).vendor_rumble,
    {
        if self.ff_evdev_effects.contains_key(&effect_id) {
            self.ff_evdev_effects.insert(effect_id, effect);
        }
    }

    /// Erase the force feedback effect with the given id.
    pub fn erase_effect(&mut self, effect_id: i16)
        requires
            old(self).wf(),
        ensures
            final(self).wf(),
            final(self).ff_evdev_effects@ == old(self).ff_evdev_effects@.remove(effect_id),
            final(self).driver == old(self).driver,
            final(self).intercept == old(self).intercept,
            final(self).vendor_rumble == old(self).vendor_rumble,
    {
        self.ff_evdev_effects.remove(&effect_id);
    }
}

/// Translates events of the device.
pub fn translate_events(events: Vec<event::Event>) -> (native: Vec<NativeEvent>)
    ensures
        native@ == native_events(events@),
{
    let mut native: Vec<NativeEvent> = Vec::new();
    let ghost all = events@;
    for event in it: events
        invariant
            it.seq() == all,
            native@ == native_events(all.take(it.index() as int)),
    {
        native.push(translate_event(event));
        assert(native@ =~= native_events(all.take(it.index() + 1)));
    }
    assert(all.take(all.len() as int) =~= all);
    native
}

/// Translates an event of the device.
pub fn translate_event(event: event::Event) -> (native: NativeEvent)
    ensures
        native == native_event(event),
{
    match event {
        event::Event::Button(button) => translate_button(button),
        event::Event::Axis(axis) => translate_axis(axis),
        event::Event::Trigger(trigger) => translate_trigger(trigger),
    }
}

/// Translates a button event.
pub fn translate_button(button: event::ButtonEvent) -> (native: NativeEvent)
    ensures
        native == native_event(event::Event::Button(button)),
{
    let (capability, pressed) = match button {
        event::ButtonEvent::A(v) => (GamepadButton::South, v.pressed),
        event::ButtonEvent::B(v) => (GamepadButton::East, v.pressed),
        event::ButtonEvent::X(v) => (GamepadButton::West, v.pressed),
        event::ButtonEvent::Y(v) => (GamepadButton::North, v.pressed),
        event::ButtonEvent::LB(v) => (GamepadButton::LeftBumper, v.pressed),
        event::ButtonEvent::RB(v) => (GamepadButton::RightBumper, v.pressed),
        event::ButtonEvent::Start(v) => (GamepadButton::Start, v.pressed),
        event::ButtonEvent::Select(v) => (GamepadButton::Select, v.pressed),
        event::ButtonEvent::LSClick(v) => (GamepadButton::LeftStick, v.pressed),
        event::ButtonEvent::RSClick(v) => (GamepadButton::RightStick, v.pressed),
        event::ButtonEvent::DPadUp(v) => (GamepadButton::DPadUp, v.pressed),
        event::ButtonEvent::DPadDown(v) => (GamepadButton::DPadDown, v.pressed),
        event::ButtonEvent::DPadLeft(v) => (GamepadButton::DPadLeft, v.pressed),
        event::ButtonEvent::DPadRight(v) => (GamepadButton::DPadRight, v.pressed),
        event::ButtonEvent::M1(v) => (GamepadButton::LeftPaddle1, v.pressed),
        event::ButtonEvent::M2(v) => (GamepadButton::RightPaddle1, v.pressed),
        event::ButtonEvent::Keyboard(v) => (GamepadButton::Keyboard, v.pressed),
        event::ButtonEvent::Guide(v) => (GamepadButton::Guide, v.pressed),
    };
    NativeEvent::new(Capability::Gamepad(Gamepad::Button(capability)), InputValue::Bool(pressed))
}

/// The position of a stick.
fn stick(value: event::AxisInput) -> (position: InputValue)
    ensures
        position == stick_value(value),
{
    let x = Normalized::Signed {
        raw: value.x as i32,
        min: AXIS_MIN,
        max: AXIS_MAX,
        inverted: false,
    };
    let y = Normalized::Signed {
        raw: value.y as i32,
        min: AXIS_MIN,
        max: AXIS_MAX,
        inverted: true,
    };
    InputValue::Vector2 { x: Some(x), y: Some(y) }
}

/// Translates a stick event.
pub fn translate_axis(axis: event::AxisEvent) -> (native: NativeEvent)
    ensures
        native == native_event(event::Event::Axis(axis)),
{
    match axis {
        event::AxisEvent::LStick(value) => NativeEvent::new(
            Capability::Gamepad(Gamepad::Axis(GamepadAxis::LeftStick)),
            stick(value),
        ),
        event::AxisEvent::RStick(value) => NativeEvent::new(
            Capability::Gamepad(Gamepad::Axis(GamepadAxis::RightStick)),
            stick(value),
        ),
    }
}

/// Translates a trigger event.
pub fn translate_trigger(trigger: event::TriggerEvent) -> (native: NativeEvent)
    ensures
        native == native_event(event::Event::Trigger(trigger)),
{
    match trigger {
        event::TriggerEvent::LTrigger(value) => NativeEvent::new(
            Capability::Gamepad(Gamepad::Trigger(GamepadTrigger::LeftTrigger)),
            InputValue::Float(Normalized::Unsigned { raw: value.value as u32, max: TRIGGER_MAX }),
        ),
        event::TriggerEvent::RTrigger(value) => NativeEvent::new(
            Capability::Gamepad(Gamepad::Trigger(GamepadTrigger::RightTrigger)),
            InputValue::Float(Normalized::Unsigned { raw: value.value as u32, max: TRIGGER_MAX }),
        ),
    }
}

/// Capabilities in non-intercept mode (extra buttons only)
fn extra_buttons() -> (capabilities: Vec<Capability>)
    ensures
        capabilities@ == capabilities_non_intercept(),
{
    let capabilities: Vec<Capability> = vec![
        Capability::Gamepad(Gamepad::Button(GamepadButton::LeftPaddle1)),
        Capability::Gamepad(Gamepad::Button(GamepadButton::RightPaddle1)),
        Capability::Gamepad(Gamepad::Button(GamepadButton::Keyboard)),
        Capability::Gamepad(Gamepad::Button(GamepadButton::Guide)),
    ];
    assert(capabilities@ =~= capabilities_non_intercept());
    capabilities
}

/// Capabilities in intercept mode (full gamepad)
fn all_buttons_and_axes() -> (capabilities: Vec<Capability>)
    ensures
        capabilities@ == capabilities_intercept(),
{
    let capabilities: Vec<Capability> = vec![
        Capability::Gamepad(Gamepad::Button(GamepadButton::South)),
        Capability::Gamepad(Gamepad::Button(GamepadButton::East)),
        Capability::Gamepad(Gamepad::Button(GamepadButton::West)),
        Capability::Gamepad(Gamepad::Button(GamepadButton::North)),
        Capability::Gamepad(Gamepad::Button(GamepadButton::LeftBumper)),
        Capability::Gamepad(Gamepad::Button(GamepadButton::RightBumper)),
        Capability::Gamepad(Gamepad::Button(GamepadButton::Start)),
        Capability::Gamepad(Gamepad::Button(GamepadButton::Select)),
        Capability::Gamepad(Gamepad::Button(GamepadButton::LeftStick)),
        Capability::Gamepad(Gamepad::Button(GamepadButton::RightStick)),
        Capability::Gamepad(Gamepad::Button(GamepadButton::DPadUp)),
        Capability::Gamepad(Gamepad::Button(GamepadButton::DPadDown)),
        Capability::Gamepad(Gamepad::Button(GamepadButton::DPadLeft)),
        Capability::Gamepad(Gamepad::Button(GamepadButton::DPadRight)),
        Capability::Gamepad(Gamepad::Button(GamepadButton::LeftPaddle1)),
        Capability::Gamepad(Gamepad::Button(GamepadButton::RightPaddle1)),
        Capability::Gamepad(Gamepad::Button(GamepadButton::Keyboard)),
        Capability::Gamepad(Gamepad::Button(GamepadButton::Guide)),
        Capability::Gamepad(Gamepad::Axis(GamepadAxis::LeftStick)),
        Capability::Gamepad(Gamepad::Axis(GamepadAxis::RightStick)),
        Capability::Gamepad(Gamepad::Trigger(GamepadTrigger::LeftTrigger)),
        Capability::Gamepad(Gamepad::Trigger(GamepadTrigger::RightTrigger)),
    ];
    assert(capabilities@ =~= capabilities_intercept());
    capabilities
}

/// Every event that the driver gives has one of the capabilities of the non-intercept mode.
pub proof fn law_polled_events_are_extra_buttons(changed: Seq<(u8, bool)>, i: int)
    requires
        0 <= i < native_events(driver::button_events(changed)).len(),
    ensures
        capabilities_non_intercept().contains(
            native_events(driver::button_events(changed))[i].capability,
        ),
{
    let list = capabilities_non_intercept();
    assert(list[0] == button_capability(GamepadButton::LeftPaddle1));
    assert(list[1] == button_capability(GamepadButton::RightPaddle1));
    assert(list[2] == button_capability(GamepadButton::Keyboard));
    assert(list[3] == button_capability(GamepadButton::Guide));
}

/// Every event of the device has one of the capabilities of the intercept mode.
pub proof fn law_every_event_has_a_capability(event: event::Event)
    ensures
        capabilities_intercept().contains(native_event(event).capability),
{
    let list = capabilities_intercept();
    assert(list[0] == button_capability(GamepadButton::South));
    assert(list[1] == button_capability(GamepadButton::East));
    assert(list[2] == button_capability(GamepadButton::West));
    assert(list[3] == button_capability(GamepadButton::North));
    assert(list[4] == button_capability(GamepadButton::LeftBumper));
    assert(list[5] == button_capability(GamepadButton::RightBumper));
    assert(list[6] == button_capability(GamepadButton::Start));
    assert(list[7] == button_capability(GamepadButton::Select));
    assert(list[8] == button_capability(GamepadButton::LeftStick));
    assert(list[9] == button_capability(GamepadButton::RightStick));
    assert(list[10] == button_capability(GamepadButton::DPadUp));
    assert(list[11] == button_capability(GamepadButton::DPadDown));
    assert(list[12] == button_capability(GamepadButton::DPadLeft));
    assert(list[13] == button_capability(GamepadButton::DPadRight));
    assert(list[14] == button_capability(GamepadButton::LeftPaddle1));
    assert(list[15] == button_capability(GamepadButton::RightPaddle1));
    assert(list[16] == button_capability(GamepadButton::Keyboard));
    assert(list[17] == button_capability(GamepadButton::Guide));
    assert(list[18] == Capability::Gamepad(Gamepad::Axis(GamepadAxis::LeftStick)));
    assert(list[19] == Capability::Gamepad(Gamepad::Axis(GamepadAxis::RightStick)));
    assert(list[20] == Capability::Gamepad(Gamepad::Trigger(GamepadTrigger::LeftTrigger)));
    assert(list[21] == Capability::Gamepad(Gamepad::Trigger(GamepadTrigger::RightTrigger)));
}

/// A free id has no effect, and all ids between `from` and it have one.
proof fn lemma_free_id(effects: Map<i16, FFEffectData>, from: int)
    requires
        0 <= from <= MAX_FF_EFFECTS,
    ensures
        match free_id(effects, from) {
            Some(id) => {
                &&& from <= id < MAX_FF_EFFECTS
                &&& !effects.contains_key(id)
                &&& forall|i: i16| from <= i < id ==> effects.contains_key(i)
            },
            None => forall|i: i16| from <= i < MAX_FF_EFFECTS ==> effects.contains_key(i),
        },
    decreases MAX_FF_EFFECTS - from,
{
    if from < MAX_FF_EFFECTS && effects.contains_key(from as i16) {
        lemma_free_id(effects, from + 1);
    }
}

/// An upload is refused only where all [`MAX_FF_EFFECTS`] ids have an effect, and otherwise gets
/// the smallest id that has none.
pub proof fn law_smallest_free_id_is_given(effects: Map<i16, FFEffectData>)
    ensures
        match free_id(effects, 0) {
            Some(id) => {
                &&& 0 <= id < MAX_FF_EFFECTS
                &&& !effects.contains_key(id)
                &&& forall|i: i16| 0 <= i < id ==> effects.contains_key(i)
            },
            None => forall|i: i16| 0 <= i < MAX_FF_EFFECTS ==> effects.contains_key(i),
        },
{
    lemma_free_id(effects, 0);
}

/// An upload replaces no effect: each one keeps its id, and the new one gets an id of its own.
pub proof fn law_upload_keeps_the_other_effects(
    effects: Map<i16, FFEffectData>,
    id: i16,
    effect: FFEffectData,
    other: i16,
)
    requires
        free_id(effects, 0) == Some(id),
        effects.contains_key(other),
    ensures
        other != id,
        effects.insert(id, effect)[other] == effects[other],
        effects.insert(id, effect)[id] == effect,
{
    lemma_free_id(effects, 0);
}

/// Erasing an effect undoes its upload, and its id is the next one given again.
pub proof fn law_erase_undoes_upload(
    effects: Map<i16, FFEffectData>,
    id: i16,
    effect: FFEffectData,
)
    requires
        free_id(effects, 0) == Some(id),
    ensures
        effects.insert(id, effect).remove(id) == effects,
        free_id(effects.insert(id, effect).remove(id), 0) == Some(id),
{
    lemma_free_id(effects, 0);
    assert(effects.insert(id, effect).remove(id) =~= effects);
}

/// An effect that was erased sets no strength.
pub proof fn law_erased_effect_is_silent(
    effects: Map<i16, FFEffectData>,
    id: i16,
    event: EvdevEvent,
)
    requires
        event.code as i16 == id,
    ensures
        evdev_strength(effects.remove(id), event) is None,
{
}

/// The motors are interchangeable: the strength is the greater of the two speeds, so that swapping
/// them sends the same.
pub proof fn law_swapped_motors_send_the_same(left: u8, right: u8)
    ensures
        strength(left, right) == strength(right, left),
        strength(left, right) >= left && strength(left, right) >= right,
        strength(left, right) == left || strength(left, right) == right,
{
}

/// The same holds of motor speeds of 16 bits, and so of all events that carry them.
pub proof fn law_swapped_magnitudes_send_the_same(
    effects: Map<i16, FFEffectData>,
    left: u16,
    right: u16,
)
    ensures
        wide_strength(left, right) == wide_strength(right, left),
        output_strength(
            effects,
            OutputEvent::Rumble { weak_magnitude: left, strong_magnitude: right },
        ) == output_strength(
            effects,
            OutputEvent::Rumble { weak_magnitude: right, strong_magnitude: left },
        ),
{
}

/// Playing a rumble effect that was uploaded sets the strength of its stronger motor, and stopping
/// it sets the strength to zero.
pub proof fn law_uploaded_rumble_is_played(
    effects: Map<i16, FFEffectData>,
    id: i16,
    strong_magnitude: u16,
    weak_magnitude: u16,
    event: EvdevEvent,
)
    requires
        free_id(effects, 0) == Some(id),
        event.event_type == output_event::FORCE_FEEDBACK,
        event.code as i16 == id,
    ensures
        evdev_strength(
            effects.insert(
                id,
                FFEffectData { kind: FFEffectKind::Rumble { strong_magnitude, weak_magnitude } },
            ),
            event,
        ) == Some(
            if event.value == 0 {
                0u8
            } else {
                wide_strength(strong_magnitude, weak_magnitude)
            },
        ),
{
}

} // verus!
