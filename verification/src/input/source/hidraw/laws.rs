//! What the sources of the vendor interfaces do, stated of their inputs and results.

use vstd::prelude::*;

use crate::drivers::oxp_hid::driver;
use crate::drivers::oxp_hid::driver::DriverError;
use crate::drivers::oxp_hid::event;
use crate::drivers::oxp_hid::event::{GamepadButtonEvent, X1Event};
use crate::drivers::oxp_hid::laws;
use crate::drivers::rog_ally;
use crate::drivers::rog_ally::driver::{Parent, Setup};
use crate::input::capability::{
    Capability, Gamepad, GamepadAxis, GamepadButton, GamepadTrigger, OutputCapability,
};
use crate::input::event::{InputValue, NativeEvent, Normalized};
use crate::input::output_event::{
    DualSenseReport, EvdevEvent, FFEffectData, FFEffectKind, OutputEvent, SteamDeckRumbleReport,
};
use crate::udev::device::{Attribute, UdevDevice};

use super::oxp_hid;
use super::oxp_hid::{OxpHid, UploadError};
use super::oxp_x1_hid;
use super::oxp_x1_hid::OxpX1Hid;
use super::rog_ally::RogAlly;

verus! {

/// The strength is the greater of the two: at least each of them, and one of them.
pub open spec fn is_greater_of(sent: Option<u8>, left: int, right: int) -> bool {
    &&& sent matches Some(speed)
    &&& speed >= left
    &&& speed >= right
    &&& speed == left || speed == right
}

/// A DualSense report that asks for rumble sends the greater of its two speeds: at least each of
/// them, and one of them.
pub proof fn law_dualsense_rumble(source: OxpHid, report: DualSenseReport, sent: Option<u8>)
    requires
        source.vendor_rumble,
        report.use_rumble_not_haptics || report.enable_improved_rumble_emulation,
        call_ensures(OxpHid::write_event, (&source, OutputEvent::DualSense(report)), sent),
    ensures
        is_greater_of(
            sent,
            report.rumble_emulation_left as int,
            report.rumble_emulation_right as int,
        ),
{
}

/// Of the strengths that reports set: a DualSense report that asks for rumble and a Steam Deck rumble
/// report set the greater of their two speeds, whatever effects are held. Swapping the speeds changes
/// nothing.
pub proof fn law_strength_of_reports(
    effects: Map<i16, FFEffectData>,
    asked: bool,
    improved: bool,
    left: u8,
    right: u8,
    left_speed: u16,
    right_speed: u16,
)
    ensures
        ({
            let dualsense = |left: u8, right: u8|
                oxp_hid::output_strength(
                    effects,
                    OutputEvent::DualSense(
                        DualSenseReport {
                            use_rumble_not_haptics: asked,
                            enable_improved_rumble_emulation: improved,
                            rumble_emulation_left: left,
                            rumble_emulation_right: right,
                        },
                    ),
                );
            let deck = |left: u16, right: u16|
                oxp_hid::output_strength(
                    effects,
                    OutputEvent::SteamDeckRumble(
                        SteamDeckRumbleReport { left_speed: left, right_speed: right },
                    ),
                );
            &&& asked || improved ==> is_greater_of(
                dualsense(left, right),
                left as int,
                right as int,
            )
            &&& !asked && !improved ==> dualsense(left, right) is None
            &&& dualsense(left, right) == dualsense(right, left)
            &&& is_greater_of(
                deck(left_speed, right_speed),
                left_speed as int / 256,
                right_speed as int / 256,
            )
            &&& deck(left_speed, right_speed) == deck(right_speed, left_speed)
        }),
{
}

/// A DualSense report with the two speeds swapped sends the same, and one that does not ask for
/// rumble sends nothing.
pub proof fn law_dualsense_motors_are_interchangeable(
    source: OxpHid,
    report: DualSenseReport,
    sent: Option<u8>,
    swapped: Option<u8>,
)
    requires
        call_ensures(OxpHid::write_event, (&source, OutputEvent::DualSense(report)), sent),
        call_ensures(
            OxpHid::write_event,
            (
                &source,
                OutputEvent::DualSense(
                    DualSenseReport {
                        rumble_emulation_left: report.rumble_emulation_right,
                        rumble_emulation_right: report.rumble_emulation_left,
                        ..report
                    },
                ),
            ),
            swapped,
        ),
    ensures
        sent == swapped,
        !report.use_rumble_not_haptics && !report.enable_improved_rumble_emulation ==> sent is None,
{
}

/// A Steam Deck rumble report sends the greater of the upper bytes of its two speeds, and the same
/// with the speeds swapped.
pub proof fn law_steam_deck_rumble(
    source: OxpHid,
    report: SteamDeckRumbleReport,
    sent: Option<u8>,
    swapped: Option<u8>,
)
    requires
        source.vendor_rumble,
        call_ensures(OxpHid::write_event, (&source, OutputEvent::SteamDeckRumble(report)), sent),
        call_ensures(
            OxpHid::write_event,
            (
                &source,
                OutputEvent::SteamDeckRumble(
                    SteamDeckRumbleReport {
                        left_speed: report.right_speed,
                        right_speed: report.left_speed,
                    },
                ),
            ),
            swapped,
        ),
    ensures
        is_greater_of(sent, report.left_speed as int / 256, report.right_speed as int / 256),
        sent == swapped,
{
}

/// A rumble event sends the greater of the upper bytes of its two magnitudes, and the same with the
/// magnitudes swapped.
pub proof fn law_plain_rumble(
    source: OxpHid,
    weak: u16,
    strong: u16,
    sent: Option<u8>,
    swapped: Option<u8>,
)
    requires
        source.vendor_rumble,
        call_ensures(
            OxpHid::write_event,
            (&source, OutputEvent::Rumble { weak_magnitude: weak, strong_magnitude: strong }),
            sent,
        ),
        call_ensures(
            OxpHid::write_event,
            (&source, OutputEvent::Rumble { weak_magnitude: strong, strong_magnitude: weak }),
            swapped,
        ),
    ensures
        is_greater_of(sent, weak as int / 256, strong as int / 256),
        sent == swapped,
{
}

/// Playing an uploaded rumble effect sends the greater of the upper bytes of its two magnitudes, and
/// stopping any uploaded effect sends zero. Another effect, an effect that is not there and an event
/// of another type send nothing.
pub proof fn law_played_effect(source: OxpHid, event: EvdevEvent, sent: Option<u8>)
    requires
        source.vendor_rumble,
        call_ensures(OxpHid::write_event, (&source, OutputEvent::Evdev(event)), sent),
    ensures
        ({
            let id = event.code as i16;
            let effects = source.ff_evdev_effects@;
            let known = event.event_type == 0x15 && effects.contains_key(id);
            &&& !known ==> sent is None
            &&& known && event.value == 0 ==> sent == Some(0u8)
            &&& known && event.value != 0 ==> match effects[id].kind {
                FFEffectKind::Rumble { strong_magnitude, weak_magnitude } => is_greater_of(
                    sent,
                    strong_magnitude as int / 256,
                    weak_magnitude as int / 256,
                ),
                FFEffectKind::Other => sent is None,
            }
        }),
{
}

/// A source without vendor rumble sends nothing, and neither do the events that carry no rumble.
pub proof fn law_events_that_send_nothing(source: OxpHid, event: OutputEvent, sent: Option<u8>)
    requires
        call_ensures(OxpHid::write_event, (&source, event), sent),
        !source.vendor_rumble || event is Uinput || event is SteamDeckHaptics,
    ensures
        sent is None,
{
}

/// The greater of two speeds is what both together are sent as.
pub proof fn law_motors_become_one(left: u8, right: u8, sent: u8)
    requires
        call_ensures(OxpHid::set_rumble, (left, right), sent),
    ensures
        sent >= left && sent >= right,
        sent == left || sent == right,
{
}

/// An upload takes the smallest of the sixteen ids that is free and replaces no other effect. It is
/// refused exactly if none is free, and then nothing changes.
pub proof fn law_uploaded_effect(
    source: &mut OxpHid,
    effect: FFEffectData,
    result: Result<i16, UploadError>,
)
    requires
        call_ensures(OxpHid::upload_effect, (source, effect), result),
    ensures
        ({
            let before = old(source).ff_evdev_effects@;
            let after = final(source).ff_evdev_effects@;
            &&& result matches Ok(id) ==> {
                &&& 0 <= id < 16
                &&& !before.contains_key(id)
                &&& forall|i: i16| 0 <= i < id ==> #[trigger] before.contains_key(i)
                &&& after.contains_key(id) && after[id] == effect
                &&& forall|i: i16|
                    #![trigger after.contains_key(i)]
                    i != id ==> after.contains_key(i) == before.contains_key(i) && (
                    before.contains_key(i) ==> after[i] == before[i])
            }
            &&& result is Err ==> {
                &&& forall|i: i16| 0 <= i < 16 ==> #[trigger] before.contains_key(i)
                &&& after == before
            }
            &&& final(source).driver == old(source).driver
            &&& final(source).intercept == old(source).intercept
            &&& final(source).vendor_rumble == old(source).vendor_rumble
        }),
{
    oxp_hid::law_smallest_free_id_is_given(old(source).ff_evdev_effects@);
}

/// An update replaces the effect that has the id, if one has, and nothing else.
pub proof fn law_updated_effect(source: &mut OxpHid, id: i16, effect: FFEffectData, i: i16)
    requires
        call_ensures(OxpHid::update_effect, (source, id, effect), ()),
    ensures
        ({
            let before = old(source).ff_evdev_effects@;
            let after = final(source).ff_evdev_effects@;
            &&& after.contains_key(i) == before.contains_key(i)
            &&& before.contains_key(i) && i != id ==> after[i] == before[i]
            &&& before.contains_key(id) ==> after[id] == effect
            &&& final(source).driver == old(source).driver
            &&& final(source).intercept == old(source).intercept
            &&& final(source).vendor_rumble == old(source).vendor_rumble
        }),
{
}

/// An effect that was erased is held no longer, and all others stay.
pub proof fn law_erased_effect_is_gone(source: &mut OxpHid, id: i16, i: i16)
    requires
        call_ensures(OxpHid::erase_effect, (source, id), ()),
    ensures
        ({
            let before = old(source).ff_evdev_effects@;
            let after = final(source).ff_evdev_effects@;
            &&& !after.contains_key(id)
            &&& i != id ==> after.contains_key(i) == before.contains_key(i)
            &&& i != id && before.contains_key(i) ==> after[i] == before[i]
            &&& final(source).driver == old(source).driver
            &&& final(source).intercept == old(source).intercept
            &&& final(source).vendor_rumble == old(source).vendor_rumble
        }),
{
}

/// The refusal of an upload says that no more effects can be held.
pub proof fn law_refused_upload_says_why(error: UploadError, message: String)
    requires
        call_ensures(UploadError::message, (&error,), message),
    ensures
        message@ == "Maximum FF effects uploaded"@,
{
}

/// A source is made exactly for the devices of the driver, as it was asked for and without effects.
pub proof fn law_new_source(
    path: String,
    vendor_id: u16,
    product_id: u16,
    intercept: bool,
    vendor_rumble: bool,
    result: Result<OxpHid, DriverError>,
)
    requires
        call_ensures(OxpHid::new, (path, vendor_id, product_id, intercept, vendor_rumble), result),
    ensures
        result is Ok <==> vendor_id == 0x1a86 && product_id == 0xfe00,
        result matches Ok(source) ==> {
            &&& source.intercept == intercept && source.vendor_rumble == vendor_rumble
            &&& !source.driver.initialized
            &&& forall|i: int| 0 <= i < 37 ==> !#[trigger] source.driver.btn_state@[i]
            &&& forall|i: i16| !#[trigger] source.ff_evdev_effects@.contains_key(i)
        },
        result matches Err(DriverError::NotOxpHid { path: named }) ==> named@ == path@,
{
}

/// A source of the X1 is made exactly for the devices of the driver.
pub proof fn law_new_x1_source(
    path: String,
    vendor_id: u16,
    product_id: u16,
    result: Result<OxpX1Hid, DriverError>,
)
    requires
        call_ensures(OxpX1Hid::new, (path, vendor_id, product_id), result),
    ensures
        result is Ok <==> vendor_id == 0x1a86 && product_id == 0xfe00,
        result matches Ok(source) ==> {
            &&& !source.driver.initialized
            &&& forall|i: int| 0 <= i < 37 ==> !#[trigger] source.driver.btn_state@[i]
        },
        result matches Err(DriverError::NotOxpHid { path: named }) ==> named@ == path@,
{
}

/// The event of a gamepad button.
pub open spec fn press(button: GamepadButton, pressed: bool) -> NativeEvent {
    NativeEvent {
        capability: Capability::Gamepad(Gamepad::Button(button)),
        value: InputValue::Bool(pressed),
    }
}

/// A button report that changes the state of a button gives one event: of the guide button, the left
/// paddle, the right paddle or the keyboard button, by the code, and pressed as the report says. Any
/// other report gives none.
pub proof fn law_polled_buttons(
    source: &mut OxpHid,
    report: [u8; 64],
    bytes_read: usize,
    events: Vec<NativeEvent>,
)
    requires
        call_ensures(OxpHid::poll, (source, &report, bytes_read), events),
    ensures
        ({
            let pressed = report@[12] == 1;
            let before = old(source).driver.btn_state@;
            let after = final(source).driver.btn_state@;
            let told = laws::tells_a_button(report@, bytes_read);
            let changed = told && before[report@[6] as int] != pressed;
            &&& changed ==> {
                &&& events@.len() == 1
                &&& report@[6] == 0x21 ==> events@[0] == press(GamepadButton::Guide, pressed)
                &&& report@[6] == 0x22 ==> events@[0] == press(GamepadButton::LeftPaddle1, pressed)
                &&& report@[6] == 0x23 ==> events@[0] == press(GamepadButton::RightPaddle1, pressed)
                &&& report@[6] == 0x24 ==> events@[0] == press(GamepadButton::Keyboard, pressed)
            }
            &&& !changed ==> events@.len() == 0 && after == before
            &&& told ==> after[report@[6] as int] == pressed
            &&& forall|i: int|
                0 <= i < 37 && i != report@[6] as int ==> #[trigger] after[i] == before[i]
            &&& final(source).ff_evdev_effects == old(source).ff_evdev_effects
            &&& final(source).intercept == old(source).intercept
            &&& final(source).vendor_rumble == old(source).vendor_rumble
            &&& final(source).driver.initialized == old(source).driver.initialized
        }),
{
    laws::lemma_single_report(old(source).driver.btn_state@, report@, bytes_read);
    let before = old(source).driver.btn_state@;
    assert(before.len() == 37);
}

/// The X1 gives the same events for the same reports.
pub proof fn law_polled_x1_buttons(
    source: &mut OxpX1Hid,
    report: [u8; 64],
    bytes_read: usize,
    events: Vec<NativeEvent>,
)
    requires
        call_ensures(OxpX1Hid::poll, (source, &report, bytes_read), events),
    ensures
        ({
            let pressed = report@[12] == 1;
            let before = old(source).driver.btn_state@;
            let after = final(source).driver.btn_state@;
            let told = laws::tells_a_button(report@, bytes_read);
            let changed = told && before[report@[6] as int] != pressed;
            &&& changed ==> {
                &&& events@.len() == 1
                &&& report@[6] == 0x21 ==> events@[0] == press(GamepadButton::Guide, pressed)
                &&& report@[6] == 0x22 ==> events@[0] == press(GamepadButton::LeftPaddle1, pressed)
                &&& report@[6] == 0x23 ==> events@[0] == press(GamepadButton::RightPaddle1, pressed)
                &&& report@[6] == 0x24 ==> events@[0] == press(GamepadButton::Keyboard, pressed)
            }
            &&& !changed ==> events@.len() == 0 && after == before
            &&& told ==> after[report@[6] as int] == pressed
            &&& forall|i: int|
                0 <= i < 37 && i != report@[6] as int ==> #[trigger] after[i] == before[i]
            &&& final(source).driver.initialized == old(source).driver.initialized
        }),
{
    let before = old(source).driver.btn_state@;
    assert(before.len() == 37);
    laws::lemma_single_report(before, report@, bytes_read);
    oxp_x1_hid::law_extra_buttons_agree(
        driver::changes(before, driver::report_list(report@, bytes_read)),
    );
}

/// Each button of the device is the gamepad button of its place, pressed as it is.
pub proof fn law_translated_button(button: event::ButtonEvent, native: NativeEvent)
    requires
        call_ensures(oxp_hid::translate_button, (button,), native),
    ensures
        button matches event::ButtonEvent::A(v) ==> native == press(
            GamepadButton::South,
            v.pressed,
        ),
        button matches event::ButtonEvent::B(v) ==> native == press(GamepadButton::East, v.pressed),
        button matches event::ButtonEvent::X(v) ==> native == press(GamepadButton::West, v.pressed),
        button matches event::ButtonEvent::Y(v) ==> native == press(
            GamepadButton::North,
            v.pressed,
        ),
        button matches event::ButtonEvent::LB(v) ==> native == press(
            GamepadButton::LeftBumper,
            v.pressed,
        ),
        button matches event::ButtonEvent::RB(v) ==> native == press(
            GamepadButton::RightBumper,
            v.pressed,
        ),
        button matches event::ButtonEvent::Start(v) ==> native == press(
            GamepadButton::Start,
            v.pressed,
        ),
        button matches event::ButtonEvent::Select(v) ==> native == press(
            GamepadButton::Select,
            v.pressed,
        ),
        button matches event::ButtonEvent::LSClick(v) ==> native == press(
            GamepadButton::LeftStick,
            v.pressed,
        ),
        button matches event::ButtonEvent::RSClick(v) ==> native == press(
            GamepadButton::RightStick,
            v.pressed,
        ),
        button matches event::ButtonEvent::DPadUp(v) ==> native == press(
            GamepadButton::DPadUp,
            v.pressed,
        ),
        button matches event::ButtonEvent::DPadDown(v) ==> native == press(
            GamepadButton::DPadDown,
            v.pressed,
        ),
        button matches event::ButtonEvent::DPadLeft(v) ==> native == press(
            GamepadButton::DPadLeft,
            v.pressed,
        ),
        button matches event::ButtonEvent::DPadRight(v) ==> native == press(
            GamepadButton::DPadRight,
            v.pressed,
        ),
        button matches event::ButtonEvent::M1(v) ==> native == press(
            GamepadButton::LeftPaddle1,
            v.pressed,
        ),
        button matches event::ButtonEvent::M2(v) ==> native == press(
            GamepadButton::RightPaddle1,
            v.pressed,
        ),
        button matches event::ButtonEvent::Keyboard(v) ==> native == press(
            GamepadButton::Keyboard,
            v.pressed,
        ),
        button matches event::ButtonEvent::Guide(v) ==> native == press(
            GamepadButton::Guide,
            v.pressed,
        ),
{
}

/// The position is that of the stick over the range from -32767 to 32767, with the vertical axis
/// turned around.
pub open spec fn is_position(value: InputValue, stick: event::AxisInput) -> bool {
    &&& value matches InputValue::Vector2 { x: Some(across), y: Some(along) }
    &&& across == (Normalized::Signed {
        raw: stick.x as i32,
        min: -32767i32,
        max: 32767,
        inverted: false,
    })
    &&& along == (Normalized::Signed {
        raw: stick.y as i32,
        min: -32767i32,
        max: 32767,
        inverted: true,
    })
}

/// Each stick of the device is the stick of its side, in its position.
pub proof fn law_translated_stick(axis: event::AxisEvent, native: NativeEvent)
    requires
        call_ensures(oxp_hid::translate_axis, (axis,), native),
    ensures
        axis matches event::AxisEvent::LStick(stick) ==> {
            &&& native.capability == Capability::Gamepad(Gamepad::Axis(GamepadAxis::LeftStick))
            &&& is_position(native.value, stick)
        },
        axis matches event::AxisEvent::RStick(stick) ==> {
            &&& native.capability == Capability::Gamepad(Gamepad::Axis(GamepadAxis::RightStick))
            &&& is_position(native.value, stick)
        },
{
}

/// Each trigger of the device is the trigger of its side, pulled as far over the range to 255.
pub proof fn law_translated_trigger(pull: event::TriggerEvent, native: NativeEvent)
    requires
        call_ensures(oxp_hid::translate_trigger, (pull,), native),
    ensures
        pull matches event::TriggerEvent::LTrigger(v) ==> {
            &&& native.capability == Capability::Gamepad(
                Gamepad::Trigger(GamepadTrigger::LeftTrigger),
            )
            &&& native.value == InputValue::Float(
                Normalized::Unsigned { raw: v.value as u32, max: 255 },
            )
        },
        pull matches event::TriggerEvent::RTrigger(v) ==> {
            &&& native.capability == Capability::Gamepad(
                Gamepad::Trigger(GamepadTrigger::RightTrigger),
            )
            &&& native.value == InputValue::Float(
                Normalized::Unsigned { raw: v.value as u32, max: 255 },
            )
        },
{
}

/// Events are translated one by one, each as what it is.
pub proof fn law_translated_events(
    events: Vec<event::Event>,
    native: Vec<NativeEvent>,
    i: int,
    single: NativeEvent,
    other: NativeEvent,
)
    requires
        call_ensures(oxp_hid::translate_events, (events,), native),
        0 <= i < events@.len(),
        call_ensures(oxp_hid::translate_event, (events@[i],), single),
        match events@[i] {
            event::Event::Button(button) => call_ensures(
                oxp_hid::translate_button,
                (button,),
                other,
            ),
            event::Event::Axis(axis) => call_ensures(oxp_hid::translate_axis, (axis,), other),
            event::Event::Trigger(pull) => call_ensures(
                oxp_hid::translate_trigger,
                (pull,),
                other,
            ),
        },
    ensures
        native@.len() == events@.len(),
        native@[i] == single,
        single == other,
{
}

/// No event is lost or made up in translation.
pub proof fn law_as_many_events(
    events: Vec<event::Event>,
    native: Vec<NativeEvent>,
    of_x1: Vec<X1Event>,
    native_x1: Vec<NativeEvent>,
)
    requires
        call_ensures(oxp_hid::translate_events, (events,), native),
        call_ensures(oxp_x1_hid::translate_events, (of_x1,), native_x1),
    ensures
        native@.len() == events@.len(),
        native_x1@.len() == of_x1@.len(),
{
}

/// Each button of the X1 is the gamepad button of its place, pressed as it is.
pub proof fn law_translated_x1_button(x1: X1Event, native: NativeEvent)
    requires
        call_ensures(oxp_x1_hid::translate_event, (x1,), native),
    ensures
        x1 matches X1Event::GamepadButton(GamepadButtonEvent::M1(v)) ==> native == press(
            GamepadButton::LeftPaddle1,
            v.pressed,
        ),
        x1 matches X1Event::GamepadButton(GamepadButtonEvent::M2(v)) ==> native == press(
            GamepadButton::RightPaddle1,
            v.pressed,
        ),
        x1 matches X1Event::GamepadButton(GamepadButtonEvent::Keyboard(v)) ==> native == press(
            GamepadButton::Keyboard,
            v.pressed,
        ),
        x1 matches X1Event::GamepadButton(GamepadButtonEvent::Guide(v)) ==> native == press(
            GamepadButton::Guide,
            v.pressed,
        ),
{
}

/// Events of the X1 are translated one by one.
pub proof fn law_translated_x1_events(
    events: Vec<X1Event>,
    native: Vec<NativeEvent>,
    i: int,
    single: NativeEvent,
)
    requires
        call_ensures(oxp_x1_hid::translate_events, (events,), native),
        0 <= i < events@.len(),
        call_ensures(oxp_x1_hid::translate_event, (events@[i],), single),
    ensures
        native@.len() == events@.len(),
        native@[i] == single,
{
}

/// The button is one of the four extra buttons.
pub open spec fn is_extra(button: GamepadButton) -> bool {
    button is LeftPaddle1 || button is RightPaddle1 || button is Keyboard || button is Guide
}

/// In intercept mode a source has all buttons, sticks and triggers of a gamepad, and else the four
/// extra buttons alone. It lists none twice.
pub proof fn law_capabilities_of_a_source(
    source: OxpHid,
    capabilities: Vec<Capability>,
    capability: Capability,
)
    requires
        call_ensures(OxpHid::get_capabilities, (&source,), capabilities),
    ensures
        source.intercept ==> (capabilities@.contains(capability) <==> match capability {
            Capability::Gamepad(Gamepad::Button(_)) => true,
            Capability::Gamepad(Gamepad::Axis(_)) => true,
            Capability::Gamepad(Gamepad::Trigger(_)) => true,
            _ => false,
        }),
        !source.intercept ==> (capabilities@.contains(capability) <==> match capability {
            Capability::Gamepad(Gamepad::Button(button)) => is_extra(button),
            _ => false,
        }),
        capabilities@.no_duplicates(),
{
    let list = capabilities@;
    if source.intercept {
        lemma_all_listed(list, capability);
    } else {
        lemma_extra_listed(list, capability);
    }
}

/// The X1 has the four extra buttons, each listed once.
pub proof fn law_capabilities_of_the_x1(
    source: OxpX1Hid,
    capabilities: Vec<Capability>,
    capability: Capability,
)
    requires
        call_ensures(OxpX1Hid::get_capabilities, (&source,), capabilities),
    ensures
        capabilities@.contains(capability) <==> match capability {
            Capability::Gamepad(Gamepad::Button(button)) => is_extra(button),
            _ => false,
        },
        capabilities@.no_duplicates(),
{
    lemma_extra_listed(capabilities@, capability);
}

proof fn lemma_extra_listed(list: Seq<Capability>, capability: Capability)
    requires
        list == oxp_hid::capabilities_non_intercept(),
    ensures
        list.contains(capability) <==> match capability {
            Capability::Gamepad(Gamepad::Button(button)) => is_extra(button),
            _ => false,
        },
        list.no_duplicates(),
{
    assert(list[0] == Capability::Gamepad(Gamepad::Button(GamepadButton::LeftPaddle1)));
    assert(list[1] == Capability::Gamepad(Gamepad::Button(GamepadButton::RightPaddle1)));
    assert(list[2] == Capability::Gamepad(Gamepad::Button(GamepadButton::Keyboard)));
    assert(list[3] == Capability::Gamepad(Gamepad::Button(GamepadButton::Guide)));
    if list.contains(capability) {
        let at = choose|at: int| 0 <= at < list.len() && list[at] == capability;
        assert(at == 0 || at == 1 || at == 2 || at == 3);
    }
}

/// Where a capability stands in the list of all.
spec fn listed_at(capability: Capability) -> int {
    match capability {
        Capability::Gamepad(Gamepad::Button(button)) => match button {
            GamepadButton::South => 0,
            GamepadButton::East => 1,
            GamepadButton::West => 2,
            GamepadButton::North => 3,
            GamepadButton::LeftBumper => 4,
            GamepadButton::RightBumper => 5,
            GamepadButton::Start => 6,
            GamepadButton::Select => 7,
            GamepadButton::LeftStick => 8,
            GamepadButton::RightStick => 9,
            GamepadButton::DPadUp => 10,
            GamepadButton::DPadDown => 11,
            GamepadButton::DPadLeft => 12,
            GamepadButton::DPadRight => 13,
            GamepadButton::LeftPaddle1 => 14,
            GamepadButton::RightPaddle1 => 15,
            GamepadButton::Keyboard => 16,
            GamepadButton::Guide => 17,
        },
        Capability::Gamepad(Gamepad::Axis(GamepadAxis::LeftStick)) => 18,
        Capability::Gamepad(Gamepad::Axis(GamepadAxis::RightStick)) => 19,
        Capability::Gamepad(Gamepad::Trigger(GamepadTrigger::LeftTrigger)) => 20,
        Capability::Gamepad(Gamepad::Trigger(GamepadTrigger::RightTrigger)) => 21,
        _ => -1,
    }
}

proof fn lemma_all_listed(list: Seq<Capability>, capability: Capability)
    requires
        list == oxp_hid::capabilities_intercept(),
    ensures
        list.contains(capability) <==> match capability {
            Capability::Gamepad(Gamepad::Button(_)) => true,
            Capability::Gamepad(Gamepad::Axis(_)) => true,
            Capability::Gamepad(Gamepad::Trigger(_)) => true,
            _ => false,
        },
        list.no_duplicates(),
{
    assert(list.len() == 22);
    assert forall|i: int| 0 <= i < 22 implies listed_at(#[trigger] list[i]) == i by {
        assert(i == 0 || i == 1 || i == 2 || i == 3 || i == 4 || i == 5 || i == 6 || i == 7 || i
            == 8 || i == 9 || i == 10 || i == 11 || i == 12 || i == 13 || i == 14 || i == 15 || i
            == 16 || i == 17 || i == 18 || i == 19 || i == 20 || i == 21);
    }
    let at = listed_at(capability);
    if at >= 0 {
        assert(list[at] == capability);
    }
}

/// A source says that it takes force feedback exactly if it has vendor rumble.
pub proof fn law_output_capabilities(source: OxpHid, capabilities: Vec<OutputCapability>)
    requires
        call_ensures(OxpHid::get_output_capabilities, (&source,), capabilities),
    ensures
        capabilities@.contains(OutputCapability::ForceFeedback) <==> source.vendor_rumble,
        capabilities@.len() <= 1,
{
    if source.vendor_rumble {
        assert(capabilities@[0] == OutputCapability::ForceFeedback);
    }
}

/// An Ally gives no events and has no capabilities here, and stays as it is.
pub proof fn law_ally_gives_no_events(
    source: &mut RogAlly,
    events: Vec<NativeEvent>,
    capabilities: Vec<Capability>,
)
    requires
        call_ensures(RogAlly::poll, (source,), events),
        call_ensures(RogAlly::get_capabilities, (&*old(source),), capabilities),
    ensures
        events@.len() == 0,
        capabilities@.len() == 0,
        *final(source) == *old(source),
{
}

/// An Ally source is made exactly where its driver is, and sets the same.
pub proof fn law_ally_source_is_its_driver(
    device: UdevDevice,
    parent: Option<Parent>,
    number: &str,
    result: Result<(RogAlly, Setup), rog_ally::driver::DriverError>,
)
    requires
        call_ensures(RogAlly::new, (device, parent, number), result),
    ensures
        result is Ok <==> {
            &&& rog_ally::laws::is_model(device)
            &&& rog_ally::laws::is_bound(parent)
            &&& number@ == "02"@ || number@ == "05"@
        },
        result matches Ok((source, _)) ==> source.driver.device == device,
        result matches Ok((_, setup)) ==> {
            &&& number@ == "02"@ ==> {
                &&& setup.device@.len() == 3
                &&& rog_ally::laws::sets(setup.device@, 0, "btn_m1/remap"@, "KB_F15"@)
                &&& rog_ally::laws::sets(setup.device@, 1, "btn_m2/remap"@, "KB_F14"@)
                &&& rog_ally::laws::sets(setup.device@, 2, "gamepad_mode"@, "1"@)
                &&& setup.parent@.len() == 1
                &&& rog_ally::laws::sets(setup.parent@, 0, "apply_all"@, "1"@)
            }
            &&& number@ == "05"@ ==> {
                &&& setup.device@.len() == 1
                &&& rog_ally::laws::sets(setup.device@, 0, "qam_mode"@, "0"@)
                &&& setup.parent@.len() == 0
            }
        },
        !rog_ally::laws::is_model(device) ==> (result matches Err(
            rog_ally::driver::DriverError::NotAlly { devnode },
        ) && devnode@ == device.devnode@),
        rog_ally::laws::is_model(device) && parent is None ==> result matches Err(
            rog_ally::driver::DriverError::NoParent,
        ),
{
    rog_ally::laws::lemma_model(device);
    rog_ally::laws::lemma_numbers();
    if let Ok((_, setup)) = result {
        rog_ally::laws::lemma_attributes(setup.device@);
        rog_ally::laws::lemma_attributes(setup.parent@);
        let list = setup.device@;
        if number@ == "02"@ {
            assert(list[0].name@ == "btn_m1/remap"@);
            assert(list[1].name@ == "btn_m2/remap"@);
            assert(list[2].name@ == "gamepad_mode"@);
            assert(setup.parent@[0].name@ == "apply_all"@);
        } else {
            assert(list[0].name@ == "qam_mode"@);
        }
    }
}

/// After a resume the gamepad interface of an Ally gets the functions of its back buttons again, and
/// nothing else is set.
pub proof fn law_ally_after_a_resume(
    source: &mut RogAlly,
    number: Option<&str>,
    attributes: Vec<Attribute>,
)
    requires
        call_ensures(RogAlly::on_resume, (source, number), attributes),
    ensures
        (number matches Some(number) && number@ == "02"@) ==> {
            &&& attributes@.len() == 2
            &&& rog_ally::laws::sets(attributes@, 0, "btn_m1/remap"@, "KB_F15"@)
            &&& rog_ally::laws::sets(attributes@, 1, "btn_m2/remap"@, "KB_F14"@)
        },
        (number matches Some(number) ==> number@ != "02"@) ==> attributes@.len() == 0,
        *final(source) == *old(source),
{
    rog_ally::laws::lemma_attributes(attributes@);
    let list = attributes@;
    if number matches Some(number) && number@ == "02"@ {
        assert(list[0].name@ == "btn_m1/remap"@);
        assert(list[1].name@ == "btn_m2/remap"@);
    }
}

} // verus!
