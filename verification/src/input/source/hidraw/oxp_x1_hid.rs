//! Back buttons of the OneXPlayer X1 as a source of events.

use vstd::prelude::*;

use crate::drivers::oxp_hid::driver;
use crate::drivers::oxp_hid::driver::{Driver, DriverError, PACKET_SIZE};
use crate::drivers::oxp_hid::event;
use crate::drivers::oxp_hid::event::{Event, GamepadButtonEvent, X1Event};
use crate::input::capability::{Capability, Gamepad, GamepadButton};
use crate::input::event::{InputValue, NativeEvent};

use super::oxp_hid;

verus! {

/// OXP X1 HID source device implementation for back buttons
pub struct OxpX1Hid {
    pub driver: Driver,
}

/// The event that a button event stands for.
pub open spec fn native_event(event: X1Event) -> NativeEvent {
    let X1Event::GamepadButton(button) = event;
    let (button, pressed) = match button {
        GamepadButtonEvent::M1(value) => (GamepadButton::LeftPaddle1, value.pressed),
        GamepadButtonEvent::M2(value) => (GamepadButton::RightPaddle1, value.pressed),
        GamepadButtonEvent::Keyboard(value) => (GamepadButton::Keyboard, value.pressed),
        GamepadButtonEvent::Guide(value) => (GamepadButton::Guide, value.pressed),
    };
    NativeEvent {
        capability: Capability::Gamepad(Gamepad::Button(button)),
        value: InputValue::Bool(pressed),
    }
}

/// The events that some button events stand for.
pub open spec fn native_events(events: Seq<X1Event>) -> Seq<NativeEvent> {
    events.map_values(|event: X1Event| native_event(event))
}

/// The extra buttons among some events.
pub open spec fn extra_buttons(events: Seq<Event>) -> Seq<X1Event>
    decreases events.len(),
{
    if events.len() == 0 {
        Seq::empty()
    } else {
        match event::extra_button(events.last()) {
            Some(event) => extra_buttons(events.drop_last()).push(event),
            None => extra_buttons(events.drop_last()),
        }
    }
}

/// The extra buttons among some events.
fn keep_extra_buttons(events: Vec<Event>) -> (kept: Vec<X1Event>)
    ensures
        kept@ == extra_buttons(events@),
{
    let mut kept: Vec<X1Event> = Vec::new();
    let ghost all = events@;
    for event in it: events
        invariant
            it.seq() == all,
            kept@ == extra_buttons(all.take(it.index() as int)),
    {
        assert(all.take(it.index() + 1).drop_last() =~= all.take(it.index() as int));
        if let Some(event) = X1Event::of(event) {
            kept.push(event);
        }
    }
    assert(all.take(all.len() as int) =~= all);
    kept
}

impl OxpX1Hid {
    /// A source for the device at `path`, which has the given ids.
    pub fn new(path: String, vendor_id: u16, product_id: u16) -> (result: Result<Self, DriverError>)
        ensures
            result is Ok <==> vendor_id == driver::VID && product_id == driver::PID,
            match result {
                Ok(source) => {
                    &&& !source.driver.initialized
                    &&& forall|i: int| 0 <= i < 37 ==> !source.driver.btn_state@[i]
                },
                Err(DriverError::NotOxpHid { path: named }) => named@ == path@,
            },
    {
        match Driver::new(path, vendor_id, product_id) {
            Ok(driver) => Ok(OxpX1Hid { driver }),
            Err(e) => Err(e),
        }
    }

    /// Reads an input report and gives the events that it stands for.
    pub fn poll(&mut self, report: &[u8; PACKET_SIZE], bytes_read: usize) -> (events: Vec<
        NativeEvent,
    >)
        ensures
            events@ == native_events(
                extra_buttons(
                    driver::button_events(
                        driver::changes(
                            old(self).driver.btn_state@,
                            driver::report_list(report@, bytes_read),
                        ),
                    ),
                ),
            ),
            final(self).driver.btn_state@ == driver::state_after(
                old(self).driver.btn_state@,
                driver::report_list(report@, bytes_read),
            ),
            final(self).driver.initialized == old(self).driver.initialized,
    {
        let events = self.driver.poll(report, bytes_read);
        translate_events(keep_extra_buttons(events))
    }

    /// List of all input capabilities that the OXP X1 HID driver implements
    pub fn get_capabilities(&self) -> (capabilities: Vec<Capability>)
        ensures
            capabilities@ == oxp_hid::capabilities_non_intercept(),
    {
        let capabilities: Vec<Capability> = vec![
            Capability::Gamepad(Gamepad::Button(GamepadButton::LeftPaddle1)),
            Capability::Gamepad(Gamepad::Button(GamepadButton::RightPaddle1)),
            Capability::Gamepad(Gamepad::Button(GamepadButton::Keyboard)),
            Capability::Gamepad(Gamepad::Button(GamepadButton::Guide)),
        ];
        assert(capabilities@ =~= oxp_hid::capabilities_non_intercept());
        capabilities
    }
}

/// Translates button events.
pub fn translate_events(events: Vec<X1Event>) -> (native: Vec<NativeEvent>)
    ensures
        native@ == native_events(events@),
{
    let mut native: Vec<NativeEvent> = Vec::new();
    let ghost all = events@;
    for event in it: events
        invariant
            it.seq() == all,
            native@ == native_events(all.take(it.index() as int)),
    {
        native.push(translate_event(event));
        assert(native@ =~= native_events(all.take(it.index() + 1)));
    }
    assert(all.take(all.len() as int) =~= all);
    native
}

/// Translates a button event.
pub fn translate_event(event: X1Event) -> (native: NativeEvent)
    ensures
        native == native_event(event),
{
    match event {
        X1Event::GamepadButton(button) => match button {
            GamepadButtonEvent::M1(value) => NativeEvent::new(
                Capability::Gamepad(Gamepad::Button(GamepadButton::LeftPaddle1)),
                InputValue::Bool(value.pressed),
            ),
            GamepadButtonEvent::M2(value) => NativeEvent::new(
                Capability::Gamepad(Gamepad::Button(GamepadButton::RightPaddle1)),
                InputValue::Bool(value.pressed),
            ),
            GamepadButtonEvent::Keyboard(value) => NativeEvent::new(
                Capability::Gamepad(Gamepad::Button(GamepadButton::Keyboard)),
                InputValue::Bool(value.pressed),
            ),
            GamepadButtonEvent::Guide(value) => NativeEvent::new(
                Capability::Gamepad(Gamepad::Button(GamepadButton::Guide)),
                InputValue::Bool(value.pressed),
            ),
        },
    }
}

/// The extra buttons give the same events on the X1 as on the other devices, and no event of the
/// driver is lost.
pub proof fn law_extra_buttons_agree(changed: Seq<(u8, bool)>)
    ensures
        native_events(extra_buttons(driver::button_events(changed))) == oxp_hid::native_events(
            driver::button_events(changed),
        ),
    decreases changed.len(),
{
    let events = driver::button_events(changed);
    if changed.len() > 0 {
        law_extra_buttons_agree(changed.drop_last());
        let before = driver::button_events(changed.drop_last());
        assert(events.drop_last() =~= before);
        let event = event::extra_button(events.last())->0;
        assert(native_event(event) == oxp_hid::native_event(events.last()));
        assert(native_events(extra_buttons(events)) =~= native_events(extra_buttons(before)).push(
            native_event(event),
        ));
        assert(oxp_hid::native_events(events) =~= oxp_hid::native_events(before).push(
            oxp_hid::native_event(events.last()),
        ));
    } else {
        assert(native_events(extra_buttons(events)) =~= oxp_hid::native_events(events));
    }
}

/// Every event of the X1 has one of its capabilities.
pub proof fn law_every_event_has_a_capability(event: X1Event)
    ensures
        oxp_hid::capabilities_non_intercept().contains(native_event(event).capability),
{
    let list = oxp_hid::capabilities_non_intercept();
    assert(list[0] == oxp_hid::button_capability(GamepadButton::LeftPaddle1));
    assert(list[1] == oxp_hid::button_capability(GamepadButton::RightPaddle1));
    assert(list[2] == oxp_hid::button_capability(GamepadButton::Keyboard));
    assert(list[3] == oxp_hid::button_capability(GamepadButton::Guide));
}

} // verus!
