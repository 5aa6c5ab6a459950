//! What the MSI Claw driver does, stated of its inputs and results.

use vstd::prelude::*;

use crate::udev::device::{Attribute, UdevDevice};

use super::driver;
use super::driver::{check_ids, Driver, DriverError, Interface, ModeStep};

verus! {

/// The driver takes exactly the interfaces 01 and 02 of devices with its ids. A refusal names what
/// is wrong: the ids first, then the interface.
pub proof fn law_interfaces_of_the_driver(
    device: UdevDevice,
    number: &str,
    result: Result<Driver, DriverError>,
)
    requires
        call_ensures(Driver::new, (&device, number), result),
    ensures
        ({
            let claw = device.id_vendor == 0x0db0 && device.id_product == 0x1901;
            &&& !claw ==> (result matches Err(DriverError::NotClaw { devnode }) && devnode@
                == device.devnode@)
            &&& claw && number@ == "01"@ ==> (result matches Ok(driver) && driver.interface
                == Interface::Buttons)
            &&& claw && number@ == "02"@ ==> (result matches Ok(driver) && driver.interface
                == Interface::Reports)
            &&& claw && number@ != "01"@ && number@ != "02"@ ==> (result matches Err(
                DriverError::InvalidInterface { number: named },
            ) && named@ == number@)
        }),
{
    reveal_strlit("01");
    reveal_strlit("02");
    assert("01"@[1] == '1' && "02"@[1] == '2');
}

/// The ids are checked alike on their own.
pub proof fn law_ids_of_the_driver(device: UdevDevice, result: Result<(), DriverError>)
    requires
        call_ensures(check_ids, (&device,), result),
    ensures
        result is Ok <==> device.id_vendor == 0x0db0 && device.id_product == 0x1901,
        result matches Err(e) ==> (e matches DriverError::NotClaw { devnode } && devnode@
            == device.devnode@),
{
}

/// Refusals say what was refused.
pub proof fn law_refusals_name_their_reason(
    name: String,
    message: String,
    other: String,
    other_message: String,
)
    requires
        call_ensures(DriverError::message, (&DriverError::NotClaw { devnode: name },), message),
        call_ensures(
            DriverError::message,
            (&DriverError::InvalidInterface { number: other },),
            other_message,
        ),
    ensures
        message@ == "'"@ + name@ + "' is not a MSI Claw controller"@,
        other_message@ == "Invalid interface number "@ + other@,
{
}

/// The button interface makes M1 and M2 press the keys Insert and Delete, and no other interface
/// sets anything.
pub proof fn law_attributes_of_the_buttons(device: Driver, attributes: Vec<Attribute>)
    requires
        call_ensures(Driver::setup, (&device,), attributes),
    ensures
        device.interface == Interface::Reports ==> attributes@.len() == 0,
        device.interface == Interface::Buttons ==> {
            &&& attributes@.len() == 2
            &&& attributes@[0].name@ == "m1_remap"@ && attributes@[0].value@ == "KEY_INSERT"@
            &&& attributes@[1].name@ == "m2_remap"@ && attributes@[1].value@ == "KEY_DELETE"@
        },
{
    let list = crate::udev::device::attributes(attributes@);
    assert(list.len() == attributes@.len());
    if device.interface == Interface::Buttons {
        assert(list[0] == attributes@[0]@ && list[1] == attributes@[1]@);
    }
}

/// Reports come from the report interface alone, where a read brings any bytes, and as they were
/// decoded.
pub proof fn law_reports_are_passed_on<R, E>(
    device: Driver,
    bytes_read: usize,
    report: Result<R, E>,
    result: Result<Option<R>, E>,
)
    requires
        call_ensures(Driver::poll::<R, E>, (&device, bytes_read, report), result),
    ensures
        device.interface == Interface::Buttons || bytes_read == 0 ==> result == Ok::<
            Option<R>,
            E,
        >(None),
        device.interface == Interface::Reports && bytes_read > 0 ==> {
            &&& report matches Ok(read) ==> result == Ok::<Option<R>, E>(Some(read))
            &&& report matches Err(e) ==> result == Err::<Option<R>, E>(e)
        },
{
}

/// Only the report interface switches or asks for the mode.
pub proof fn law_mode_is_switched_by_reports(device: Driver, step: ModeStep, asks: bool)
    requires
        call_ensures(Driver::set_mode, (&device,), step),
        call_ensures(Driver::get_mode, (&device,), asks),
    ensures
        device.interface == Interface::Reports ==> asks && step == (ModeStep::Write { attempt: 0 }),
        device.interface == Interface::Buttons ==> !asks && step is Done,
{
}

/// Each attempt writes, waits and polls, in that order. The attempts end with the first report, and
/// with the eighth attempt.
pub proof fn law_attempts_to_switch_the_mode(step: ModeStep, reported: bool, next: ModeStep)
    requires
        call_ensures(ModeStep::next, (step, reported), next),
    ensures
        step matches ModeStep::Write { attempt } ==> next == (ModeStep::Wait { attempt }),
        step matches ModeStep::Wait { attempt } ==> next == (ModeStep::Poll { attempt }),
        step matches ModeStep::Poll { attempt } ==> if reported || attempt >= 7 {
            next is Done
        } else {
            next matches ModeStep::Write { attempt: more } && more == attempt + 1
        },
        step is Done ==> next is Done,
{
}

/// Where the first report comes at an attempt, the command is written that often, and eight times
/// where none comes.
pub proof fn law_number_of_mode_commands(reported: spec_fn(int) -> bool, first: int)
    requires
        0 <= first < 8,
        forall|i: int| 0 <= i < first ==> !#[trigger] reported(i),
        first < 7 ==> reported(first),
    ensures
        driver::mode_writes(ModeStep::Write { attempt: 0 }, reported) == first + 1,
{
    lemma_attempts(reported, 0, first);
    driver::law_mode_command_is_repeated_until_a_report(reported);
}

proof fn lemma_attempts(reported: spec_fn(int) -> bool, from: int, first: int)
    requires
        0 <= from <= first < 8,
        forall|i: int| from <= i < first ==> !#[trigger] reported(i),
        first < 7 ==> reported(first),
    ensures
        driver::attempts_made(from, reported) == first - from + 1,
    decreases first - from,
{
    if from < first {
        assert(!reported(from));
        lemma_attempts(reported, from + 1, first);
    }
}

/// Where the device is found, and how long it gets to acknowledge.
pub proof fn law_constants_of_the_protocol()
    ensures
        driver::VID == 0x0db0 && driver::PID == 0x1901,
        driver::MODE_ATTEMPTS == 8 && driver::MODE_DELAY == 50,
{
}

} // verus!
