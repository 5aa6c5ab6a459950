//! What the ROG Ally driver does, stated of its inputs and results.

use vstd::prelude::*;

use crate::udev::device;
use crate::udev::device::{Attribute, UdevDevice};

use super::driver;
use super::driver::{check_ids, Driver, DriverError, Parent, Setup};

verus! {

/// The device is one of the two models.
pub open spec fn is_model(udevice: UdevDevice) -> bool {
    udevice.id_vendor == 0x0b05 && (udevice.id_product == 0x1abe || udevice.id_product == 0x1b4c)
}

/// The parent is bound to one of the two kernel drivers that know the attributes.
pub open spec fn is_bound(parent: Option<Parent>) -> bool {
    &&& parent matches Some(Parent { driver: Some(name) })
    &&& name@ == "asus_rog_ally"@ || name@ == "asus_ally_hid"@
}

/// An attribute of that name and value stands there in the list.
pub open spec fn sets(list: Seq<Attribute>, i: int, name: Seq<char>, value: Seq<char>) -> bool {
    0 <= i < list.len() && list[i].name@ == name && list[i].value@ == value
}

/// A list of attributes by their names and values.
pub(crate) proof fn lemma_attributes(list: Seq<Attribute>)
    ensures
        device::attributes(list).len() == list.len(),
        forall|i: int|
            #![trigger list[i]]
            0 <= i < list.len() ==> device::attributes(list)[i] == (
                list[i].name@,
                list[i].value@,
            ),
{
}

/// The numbers of the two interfaces differ.
pub(crate) proof fn lemma_numbers()
    ensures
        "02"@ != "05"@,
{
    reveal_strlit("02");
    reveal_strlit("05");
    assert("02"@[1] == '2' && "05"@[1] == '5');
}

/// The driver's ids are those of the two models.
pub(crate) proof fn lemma_model(udevice: UdevDevice)
    ensures
        driver::is_ally(udevice) == is_model(udevice),
{
    assert(driver::PIDS@[0] == driver::ALLY_PID && driver::PIDS@[1] == driver::ALLYX_PID);
}

/// The driver takes exactly the interfaces 02 and 05 of the two models whose parent is bound to a
/// driver that knows the attributes. A refusal names the first thing that is wrong.
pub proof fn law_interfaces_of_the_driver(
    udevice: UdevDevice,
    parent: Option<Parent>,
    number: &str,
    result: Result<(Driver, Setup), DriverError>,
)
    requires
        call_ensures(Driver::new, (udevice, parent, number), result),
    ensures
        result is Ok <==> is_model(udevice) && is_bound(parent) && (number@ == "02"@ || number@
            == "05"@),
        result matches Ok((driver, _)) ==> driver.device == udevice,
        !is_model(udevice) ==> (result matches Err(DriverError::NotAlly { devnode }) && devnode@
            == udevice.devnode@),
        is_model(udevice) && parent is None ==> result matches Err(DriverError::NoParent),
        is_model(udevice) && (parent matches Some(Parent { driver: None })) ==> result matches Err(
            DriverError::NoDriver,
        ),
        is_model(udevice) && (parent matches Some(Parent { driver: Some(_) })) && !is_bound(parent)
            ==> result matches Err(DriverError::WrongDriver),
        is_model(udevice) && is_bound(parent) && number@ != "02"@ && number@ != "05"@
            ==> (result matches Err(DriverError::InvalidInterface { number: named }) && named@
            == number@),
{
    lemma_model(udevice);
}

/// The gamepad interface makes the back buttons press F15 and F14, then sets the gamepad mode, and
/// applies all of it through the parent. The other interface sets only the mode of its extra button.
pub proof fn law_attributes_at_the_start(
    udevice: UdevDevice,
    parent: Option<Parent>,
    number: &str,
    driver: Driver,
    setup: Setup,
)
    requires
        call_ensures(
            Driver::new,
            (udevice, parent, number),
            Ok::<(Driver, Setup), DriverError>((driver, setup)),
        ),
    ensures
        number@ == "02"@ ==> {
            &&& setup.device@.len() == 3
            &&& sets(setup.device@, 0, "btn_m1/remap"@, "KB_F15"@)
            &&& sets(setup.device@, 1, "btn_m2/remap"@, "KB_F14"@)
            &&& sets(setup.device@, 2, "gamepad_mode"@, "1"@)
            &&& setup.parent@.len() == 1
            &&& sets(setup.parent@, 0, "apply_all"@, "1"@)
        },
        number@ == "05"@ ==> {
            &&& setup.device@.len() == 1
            &&& sets(setup.device@, 0, "qam_mode"@, "0"@)
            &&& setup.parent@.len() == 0
        },
{
    lemma_numbers();
    lemma_attributes(setup.device@);
    lemma_attributes(setup.parent@);
    let list = setup.device@;
    if number@ == "02"@ {
        assert(device::attributes(list).len() == 3);
        assert(list[0].name@ == "btn_m1/remap"@);
        assert(list[1].name@ == "btn_m2/remap"@);
        assert(list[2].name@ == "gamepad_mode"@);
        assert(setup.parent@[0].name@ == "apply_all"@);
    } else if number@ == "05"@ {
        assert(list[0].name@ == "qam_mode"@);
    }
}

/// After a resume the gamepad interface makes the back buttons press F15 and F14 again, and nothing
/// else is set.
pub proof fn law_attributes_after_a_resume(
    driver: Driver,
    number: Option<&str>,
    attributes: Vec<Attribute>,
)
    requires
        call_ensures(Driver::reapply_remaps, (&driver, number), attributes),
    ensures
        (number matches Some(number) && number@ == "02"@) ==> {
            &&& attributes@.len() == 2
            &&& sets(attributes@, 0, "btn_m1/remap"@, "KB_F15"@)
            &&& sets(attributes@, 1, "btn_m2/remap"@, "KB_F14"@)
        },
        (number matches Some(number) ==> number@ != "02"@) ==> attributes@.len() == 0,
{
    lemma_attributes(attributes@);
    let list = attributes@;
    if number matches Some(number) && number@ == "02"@ {
        assert(list[0].name@ == "btn_m1/remap"@);
        assert(list[1].name@ == "btn_m2/remap"@);
    }
}

/// The ids are checked alike on their own.
pub proof fn law_ids_of_the_driver(udevice: UdevDevice, result: Result<(), DriverError>)
    requires
        call_ensures(check_ids, (&udevice,), result),
    ensures
        result is Ok <==> is_model(udevice),
        result matches Err(e) ==> (e matches DriverError::NotAlly { devnode } && devnode@
            == udevice.devnode@),
{
    lemma_model(udevice);
}

/// Refusals say what was refused.
pub proof fn law_refusals_name_their_reason(error: DriverError, message: String)
    requires
        call_ensures(DriverError::message, (&error,), message),
    ensures
        error matches DriverError::NotAlly { devnode } ==> message@ == "'"@ + devnode@
            + "' is not an ROG Ally controller"@,
        error is NoParent ==> message@ == "Failed to get device parent"@,
        error is NoDriver ==> message@ == "Failed to identify device driver"@,
        error is WrongDriver ==> message@ == "Device is not using the asus_rog_ally driver."@,
        error matches DriverError::InvalidInterface { number } ==> message@
            == "Invalid interface number "@ + number@ + " provided."@,
{
}

/// Where the device is found, and how long it gets to wake up.
pub proof fn law_constants_of_the_protocol()
    ensures
        driver::VID == 0x0b05 && driver::ALLY_PID == 0x1abe && driver::ALLYX_PID == 0x1b4c,
        driver::WAKE_DELAY == 300,
{
}

} // verus!
