//! What the OneXPlayer driver does, stated of its inputs and results.

use vstd::prelude::*;

use super::driver;
use super::driver::{gen_cmd, Driver, DriverError, InitAction, InitStep};
use super::event::{BinaryInput, ButtonEvent, Event, GamepadButtonEvent, X1Event};

verus! {

/// The report tells the state of a button: it is whole, framed, a button report and of one of the
/// four extra buttons.
pub open spec fn tells_a_button(report: Seq<u8>, bytes_read: usize) -> bool {
    &&& bytes_read >= 64
    &&& report[0] == 0xb2
    &&& report[1] == 0x3f
    &&& report[62] == 0x3f
    &&& 0x21 <= report[6] <= 0x24
}

/// A report that tells a button to be in another state than before gives exactly the event of that
/// button in its new state, and only that state is changed.
pub proof fn law_changed_button_gives_its_event(
    device: &mut Driver,
    report: [u8; 64],
    bytes_read: usize,
    events: Vec<Event>,
)
    requires
        call_ensures(Driver::poll, (device, &report, bytes_read), events),
        tells_a_button(report@, bytes_read),
        old(device).btn_state@[report@[6] as int] != (report@[12] == 1),
    ensures
        ({
            let input = BinaryInput { pressed: report@[12] == 1 };
            let button = report@[6] as int;
            &&& events@.len() == 1
            &&& report@[6] == 0x21 ==> events@[0] == Event::Button(ButtonEvent::Guide(input))
            &&& report@[6] == 0x22 ==> events@[0] == Event::Button(ButtonEvent::M1(input))
            &&& report@[6] == 0x23 ==> events@[0] == Event::Button(ButtonEvent::M2(input))
            &&& report@[6] == 0x24 ==> events@[0] == Event::Button(ButtonEvent::Keyboard(input))
            &&& final(device).btn_state@[button] == (report@[12] == 1)
            &&& forall|i: int|
                0 <= i < 37 && i != button ==> #[trigger] final(device).btn_state@[i] == old(
                    device,
                ).btn_state@[i]
            &&& final(device).initialized == old(device).initialized
        }),
{
    lemma_single_report(old(device).btn_state@, report@, bytes_read);
}

/// Any other report, also one that repeats the state of a button, gives no event and changes no
/// state.
pub proof fn law_other_reports_are_silent(
    device: &mut Driver,
    report: [u8; 64],
    bytes_read: usize,
    events: Vec<Event>,
)
    requires
        call_ensures(Driver::poll, (device, &report, bytes_read), events),
        tells_a_button(report@, bytes_read) ==> old(device).btn_state@[report@[6] as int] == (
        report@[12] == 1),
    ensures
        events@.len() == 0,
        final(device).btn_state@ == old(device).btn_state@,
        final(device).initialized == old(device).initialized,
{
    lemma_single_report(old(device).btn_state@, report@, bytes_read);
}

/// What one report does to the state.
pub(crate) proof fn lemma_single_report(state: Seq<bool>, report: Seq<u8>, bytes_read: usize)
    requires
        state.len() == 37,
    ensures
        ({
            let list = driver::report_list(report, bytes_read);
            let button = report[6];
            let pressed = report[12] == 1;
            let told = tells_a_button(report, bytes_read);
            let changed = told && state[button as int] != pressed;
            &&& driver::changes(state, list) == (if changed {
                seq![(button, pressed)]
            } else {
                Seq::<(u8, bool)>::empty()
            })
            &&& driver::state_after(state, list) == (if told {
                state.update(button as int, pressed)
            } else {
                state
            })
        }),
{
    let list = driver::report_list(report, bytes_read);
    let told = tells_a_button(report, bytes_read);
    reveal_with_fuel(driver::changes, 2);
    reveal_with_fuel(driver::state_after, 2);
    if told {
        assert(list == seq![(report[6], report[12] == 1)]);
        assert(list.skip(1) =~= Seq::<(u8, bool)>::empty());
        assert(driver::changes(state, list) =~= (if state[report[6] as int] != (report[12] == 1) {
            seq![(report[6], report[12] == 1)]
        } else {
            Seq::<(u8, bool)>::empty()
        }));
    }
}

/// The driver takes exactly the devices with its ids. All their buttons are released, and they are
/// still to be initialized.
pub proof fn law_devices_of_the_driver(
    path: String,
    vendor_id: u16,
    product_id: u16,
    result: Result<Driver, DriverError>,
)
    requires
        call_ensures(Driver::new, (path, vendor_id, product_id), result),
    ensures
        result is Ok <==> vendor_id == 0x1a86 && product_id == 0xfe00,
        result matches Ok(device) ==> !device.initialized && forall|i: int|
            0 <= i < 37 ==> !#[trigger] device.btn_state@[i],
        result matches Err(DriverError::NotOxpHid { path: named }) ==> named@ == path@,
{
}

/// A refusal names the device.
pub proof fn law_refusal_names_the_device(path: String, message: String)
    requires
        call_ensures(DriverError::message, (&DriverError::NotOxpHid { path },), message),
    ensures
        message@ == "Device '"@ + path@ + "' is not an OXP HID controller"@,
{
}

/// A command of 64 bytes: the id and the frame byte at both ends, a one, the data as far as it fits,
/// and zeros.
pub proof fn law_bytes_of_a_command(cid: u8, data: &[u8], packet: [u8; 64], i: int)
    requires
        call_ensures(gen_cmd, (cid, data), packet),
        0 <= i < 59,
    ensures
        packet@[0] == cid && packet@[63] == cid,
        packet@[1] == 0x3f && packet@[62] == 0x3f,
        packet@[2] == 1,
        packet@[3 + i] == (if i < data@.len() {
            data@[i]
        } else {
            0
        }),
{
}

/// The packet that the step writes carries `data` as a command with id `cid`.
pub open spec fn writes(action: InitAction, cid: u8, data: Seq<u8>) -> bool {
    &&& action matches InitAction::Write(packet)
    &&& packet@[0] == cid && packet@[63] == cid
    &&& packet@[1] == 0x3f && packet@[62] == 0x3f
    &&& packet@[2] == 1
    &&& forall|i: int| 0 <= i < data.len() ==> #[trigger] packet@[3 + i] == data[i]
    &&& forall|i: int| data.len() <= i < 59 ==> #[trigger] packet@[3 + i] == 0
}

/// What a mapping page holds: its header, and six bytes for each of nine buttons.
pub open spec fn maps_buttons(action: InitAction, page: u8, buttons: Seq<Seq<u8>>) -> bool {
    &&& action matches InitAction::Write(packet)
    &&& packet@[0] == 0xb4 && packet@[63] == 0xb4
    &&& packet@[1] == 0x3f && packet@[62] == 0x3f
    &&& packet@[2] == 1
    &&& packet@[3] == 2 && packet@[4] == 0x38 && packet@[5] == 0x20
    &&& packet@[6] == page && packet@[7] == 1
    &&& buttons.len() == 9
    &&& forall|k: int, i: int|
        0 <= k < 9 && 0 <= i < 6 ==> #[trigger] packet@[8 + 6 * k + i] == buttons[k][i]
}

/// A button that keeps its own function.
pub open spec fn kept(button: u8) -> Seq<u8> {
    seq![button, 1, button, 0, 0, 0]
}

/// What is done at each step of the initialization: both pages of the mapping are sent, in which all
/// buttons keep their functions but M1 and M2, which press the keys 0x67 and 0x66. Then the reports
/// are switched on and off again, each time with a pause and reads of at most fifty milliseconds.
pub proof fn law_actions_of_the_initialization(step: InitStep, action: InitAction)
    requires
        call_ensures(InitStep::action, (step,), action),
    ensures
        step is MapFirstPage ==> maps_buttons(
            action,
            1,
            seq![kept(1), kept(2), kept(3), kept(4), kept(5), kept(6), kept(7), kept(8), kept(9)],
        ),
        step is MapSecondPage ==> maps_buttons(
            action,
            2,
            seq![
                kept(10),
                kept(11),
                kept(12),
                kept(13),
                kept(14),
                kept(15),
                kept(16),
                seq![0x22u8, 2, 1, 0x67, 0, 0],
                seq![0x23u8, 2, 1, 0x66, 0, 0],
            ],
        ),
        step is Enable ==> writes(action, 0xb2, seq![3u8, 1, 2]),
        step is SettleEnabled ==> action == InitAction::Sleep(200),
        step is DrainEnabled ==> action == InitAction::Read(50),
        step is Disable ==> writes(action, 0xb2, seq![0u8, 1, 2]),
        step is SettleDisabled ==> action == InitAction::Sleep(100),
        step is DrainDisabled ==> action == InitAction::Read(50),
        step is Done ==> action is Finished,
{
    if step is MapFirstPage || step is MapSecondPage {
        let packet = action->Write_0@;
        assert(packet.len() == 64);
        let data = if step is MapFirstPage {
            driver::INIT_DATA_1@
        } else {
            driver::INIT_DATA_2@
        };
        let buttons = if step is MapFirstPage {
            seq![kept(1), kept(2), kept(3), kept(4), kept(5), kept(6), kept(7), kept(8), kept(9)]
        } else {
            seq![
                kept(10),
                kept(11),
                kept(12),
                kept(13),
                kept(14),
                kept(15),
                kept(16),
                seq![0x22u8, 2, 1, 0x67, 0, 0],
                seq![0x23u8, 2, 1, 0x66, 0, 0],
            ]
        };
        assert forall|k: int, i: int| 0 <= k < 9 && 0 <= i < 6 implies #[trigger] packet[8 + 6 * k
            + i] == buttons[k][i] by {
            assert(packet[8 + 6 * k + i] == data[5 + 6 * k + i]);
            assert(k == 0 || k == 1 || k == 2 || k == 3 || k == 4 || k == 5 || k == 6 || k == 7
                || k == 8);
            assert(i == 0 || i == 1 || i == 2 || i == 3 || i == 4 || i == 5);
        }
    }
}

/// The steps of the initialization, in their order. Replies are read until one read brings nothing,
/// and ten times at most.
pub proof fn law_order_of_the_initialization(step: InitStep, bytes_read: usize, next: InitStep)
    requires
        call_ensures(InitStep::next, (step, bytes_read), next),
    ensures
        step is MapFirstPage ==> next is MapSecondPage,
        step is MapSecondPage ==> next is Enable,
        step is Enable ==> next is SettleEnabled,
        step is SettleEnabled ==> next == (InitStep::DrainEnabled { reads: 0 }),
        step matches InitStep::DrainEnabled { reads } ==> if bytes_read == 0 || reads >= 9 {
            next is Disable
        } else {
            next matches InitStep::DrainEnabled { reads: more } && more == reads + 1
        },
        step is Disable ==> next is SettleDisabled,
        step is SettleDisabled ==> next == (InitStep::DrainDisabled { reads: 0 }),
        step matches InitStep::DrainDisabled { reads } ==> if bytes_read == 0 || reads >= 9 {
            next is Done
        } else {
            next matches InitStep::DrainDisabled { reads: more } && more == reads + 1
        },
        step is Done ==> next is Done,
{
}

/// A device that was initialized is not initialized again, and one is initialized once the last step
/// is done.
pub proof fn law_device_is_initialized_once(
    device: &mut Driver,
    step: InitStep,
    bytes_read: usize,
    next: InitStep,
    first: InitStep,
)
    requires
        call_ensures(Driver::start, (&*old(device),), first),
        call_ensures(Driver::initialize, (device, step, bytes_read), next),
    ensures
        old(device).initialized ==> first is Done,
        !old(device).initialized ==> first is MapFirstPage,
        old(device).initialized ==> final(device).initialized,
        next is Done ==> final(device).initialized,
        !(next is Done) ==> final(device).initialized == old(device).initialized,
        final(device).btn_state == old(device).btn_state,
{
}

/// Where the device is found, and how long reads wait.
pub proof fn law_constants_of_the_protocol()
    ensures
        driver::VID == 0x1a86 && driver::PID == 0xfe00 && driver::IID == 2,
        driver::PACKET_SIZE == 64,
        driver::HID_TIMEOUT == 10 && driver::DRAIN_TIMEOUT == 50 && driver::DRAIN_READS == 10,
{
}

/// The X1 knows the four extra buttons and nothing else, and keeps their states.
pub proof fn law_events_of_the_x1(event: Event, x1: Option<X1Event>)
    requires
        call_ensures(X1Event::of, (event,), x1),
    ensures
        event matches Event::Button(ButtonEvent::M1(v)) ==> x1 == Some(
            X1Event::GamepadButton(GamepadButtonEvent::M1(v)),
        ),
        event matches Event::Button(ButtonEvent::M2(v)) ==> x1 == Some(
            X1Event::GamepadButton(GamepadButtonEvent::M2(v)),
        ),
        event matches Event::Button(ButtonEvent::Keyboard(v)) ==> x1 == Some(
            X1Event::GamepadButton(GamepadButtonEvent::Keyboard(v)),
        ),
        event matches Event::Button(ButtonEvent::Guide(v)) ==> x1 == Some(
            X1Event::GamepadButton(GamepadButtonEvent::Guide(v)),
        ),
        x1 is Some ==> {
            &&& event matches Event::Button(button)
            &&& button is M1 || button is M2 || button is Keyboard || button is Guide
        },
{
}

} // verus!
