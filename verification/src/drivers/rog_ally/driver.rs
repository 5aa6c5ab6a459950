//! Configuring the buttons of ROG Ally handhelds.

use vstd::prelude::*;

use crate::text;
use crate::udev::device;
use crate::udev::device::{Attribute, UdevDevice};

verus! {

pub const ALLY_PID: u16 = 0x1abe;

pub const ALLYX_PID: u16 = 0x1b4c;

pub const PIDS: [u16; 2] = [ALLY_PID, ALLYX_PID];

pub const VID: u16 = 0x0b05;

/// How long the device gets to leave its power save mode, in milliseconds.
pub const WAKE_DELAY: u64 = 300;

/// Why a device is refused.
#[derive(Debug)]
pub enum DriverError {
    /// The device has other ids.
    NotAlly { devnode: String },
    /// The device has no parent.
    NoParent,
    /// No kernel driver is bound to the parent.
    NoDriver,
    /// Another kernel driver is bound to the parent.
    WrongDriver,
    /// The interface is not one that the driver handles.
    InvalidInterface { number: String },
}

impl DriverError {
    /// What the error says.
    pub open spec fn text(self) -> Seq<char> {
        match self {
            DriverError::NotAlly { devnode } => "'"@ + devnode@ + "' is not an ROG Ally controller"@,
            DriverError::NoParent => "Failed to get device parent"@,
            DriverError::NoDriver => "Failed to identify device driver"@,
            DriverError::WrongDriver => "Device is not using the asus_rog_ally driver."@,
            DriverError::InvalidInterface { number } => "Invalid interface number "@ + number@
                + " provided."@,
        }
    }

    /// What the error says.
    pub fn message(&self) -> (message: String)
        ensures
            message@ == self.text(),
    {
        match self {
            DriverError::NotAlly { devnode } => {
                let mut message = text::joined("'", devnode.as_str());
                message.append("' is not an ROG Ally controller");
                message
            },
            DriverError::NoParent => "Failed to get device parent".to_owned(),
            DriverError::NoDriver => "Failed to identify device driver".to_owned(),
            DriverError::WrongDriver => "Device is not using the asus_rog_ally driver.".to_owned(),
            DriverError::InvalidInterface { number } => {
                let mut message = text::joined("Invalid interface number ", number.as_str());
                message.append(" provided.");
                message
            },
        }
    }
}

/// The parent of a device.
pub struct Parent {
    /// The kernel driver that is bound to it.
    pub driver: Option<String>,
}

/// The ids are those of an Ally.
pub open spec fn is_ally(udevice: UdevDevice) -> bool {
    udevice.id_vendor == VID && PIDS@.contains(udevice.id_product)
}

/// The kernel driver is one of the two that know the attributes.
pub open spec fn is_ally_driver(driver: Seq<char>) -> bool {
    driver == "asus_rog_ally"@ || driver == "asus_ally_hid"@
}

/// The functions of the back buttons.
pub open spec fn button_remaps() -> Seq<(Seq<char>, Seq<char>)> {
    seq![("btn_m1/remap"@, "KB_F15"@), ("btn_m2/remap"@, "KB_F14"@)]
}

/// The attributes of the device that are set at the start, by the number of the interface.
pub open spec fn device_setup(number: Seq<char>) -> Option<Seq<(Seq<char>, Seq<char>)>> {
    if number == "02"@ {
        Some(button_remaps().push(("gamepad_mode"@, "1"@)))
    } else if number == "05"@ {
        Some(seq![("qam_mode"@, "0"@)])
    } else {
        None
    }
}

/// The attributes of the parent that are set after those of the device.
pub open spec fn parent_setup(number: Seq<char>) -> Seq<(Seq<char>, Seq<char>)> {
    if number == "02"@ {
        seq![("apply_all"@, "1"@)]
    } else {
        Seq::empty()
    }
}

/// The attributes that are set again after a resume.
pub open spec fn resume_setup(number: Option<Seq<char>>) -> Seq<(Seq<char>, Seq<char>)> {
    if number == Some("02"@) {
        button_remaps()
    } else {
        Seq::empty()
    }
}

/// Checks that the ids are those of an Ally.
pub fn check_ids(udevice: &UdevDevice) -> (result: Result<(), DriverError>)
    ensures
        result is Ok <==> is_ally(*udevice),
        result matches Err(e) ==> e matches DriverError::NotAlly { devnode } && devnode@
            == udevice.devnode@,
{
    assert(PIDS@[0] == ALLY_PID && PIDS@[1] == ALLYX_PID);
    if udevice.id_vendor != VID || udevice.id_product != ALLY_PID && udevice.id_product
        != ALLYX_PID {
        return Err(DriverError::NotAlly { devnode: udevice.devnode.as_str().to_owned() });
    }
    Ok(())
}

/// The attributes that give the back buttons their functions.
fn remaps() -> (attributes: Vec<Attribute>)
    ensures
        device::attributes(attributes@) == button_remaps(),
{
    let mut attributes: Vec<Attribute> = Vec::new();
    attributes.push(Attribute::new("btn_m1/remap", "KB_F15"));
    attributes.push(Attribute::new("btn_m2/remap", "KB_F14"));
    assert(device::attributes(attributes@) =~= button_remaps());
    attributes
}

/// What is set when a driver starts.
pub struct Setup {
    /// Attributes of the device.
    pub device: Vec<Attribute>,
    /// Attributes of its parent, set after those of the device.
    pub parent: Vec<Attribute>,
}

/// What is set when a driver for the interface with that number starts.
fn setup(if_num: &str) -> (setup: Option<Setup>)
    ensures
        match setup {
            Some(setup) => {
                &&& device_setup(if_num@) == Some(device::attributes(setup.device@))
                &&& parent_setup(if_num@) == device::attributes(setup.parent@)
            },
            None => device_setup(if_num@) is None,
        },
{
    let mut parent: Vec<Attribute> = Vec::new();
    if text::equal(if_num, "02") {
        let mut list = remaps();
        let ghost before = list@;
        list.push(Attribute::new("gamepad_mode", "1"));
        parent.push(Attribute::new("apply_all", "1"));
        assert(device::attributes(list@) =~= device::attributes(before).push(
            ("gamepad_mode"@, "1"@),
        ));
        assert(device::attributes(parent@) =~= seq![("apply_all"@, "1"@)]);
        Some(Setup { device: list, parent })
    } else if text::equal(if_num, "05") {
        let mut list: Vec<Attribute> = Vec::new();
        list.push(Attribute::new("qam_mode", "0"));
        proof {
            reveal_strlit("02");
            reveal_strlit("05");
            assert("02"@[1] != "05"@[1]);
        }
        assert(device::attributes(list@) =~= seq![("qam_mode"@, "0"@)]);
        assert(device::attributes(parent@) =~= Seq::empty());
        Some(Setup { device: list, parent })
    } else {
        None
    }
}

/// A driver for one interface of the device.
pub struct Driver {
    pub device: UdevDevice,
}

impl Driver {
    /// A driver for the interface with number `if_num` of the device, and what is set for it.
    pub fn new(udevice: UdevDevice, parent: Option<Parent>, if_num: &str) -> (result: Result<
        (Self, Setup),
        DriverError,
    >)
        ensures
            match result {
                Ok((driver, setup)) => {
                    &&& is_ally(udevice)
                    &&& parent matches Some(Parent { driver: Some(name) }) && is_ally_driver(name@)
                    &&& driver.device == udevice
                    &&& device_setup(if_num@) == Some(device::attributes(setup.device@))
                    &&& parent_setup(if_num@) == device::attributes(setup.parent@)
                },
                Err(DriverError::NotAlly { devnode }) => {
                    &&& !is_ally(udevice)
                    &&& devnode@ == udevice.devnode@
                },
                Err(DriverError::NoParent) => is_ally(udevice) && parent is None,
                Err(DriverError::NoDriver) => {
                    &&& is_ally(udevice)
                    &&& parent matches Some(Parent { driver: None })
                },
                Err(DriverError::WrongDriver) => {
                    &&& is_ally(udevice)
                    &&& parent matches Some(Parent { driver: Some(name) })
                    &&& !is_ally_driver(name@)
                },
                Err(DriverError::InvalidInterface { number }) => {
                    &&& is_ally(udevice)
                    &&& parent matches Some(Parent { driver: Some(name) }) && is_ally_driver(name@)
                    &&& device_setup(if_num@) is None
                    &&& number@ == if_num@
                },
            },
    {
        match check_ids(&udevice) {
            Ok(_) => {},
            Err(e) => {
                return Err(e);
            },
        }
        let parent = match parent {
            Some(parent) => parent,
            None => {
                return Err(DriverError::NoParent);
            },
        };
        let driver = match parent.driver {
            Some(driver) => driver,
            None => {
                return Err(DriverError::NoDriver);
            },
        };
        if !text::equal(driver.as_str(), "asus_rog_ally") && !text::equal(
            driver.as_str(),
            "asus_ally_hid",
        ) {
            return Err(DriverError::WrongDriver);
        }
        match setup(if_num) {
            Some(setup) => Ok((Driver { device: udevice }, setup)),
            None => Err(DriverError::InvalidInterface { number: if_num.to_owned() }),
        }
    }

    /// The attributes to set after a resume, because the device forgets the functions of its back
    /// buttons while it sleeps. `if_num` is the number of the interface, if the device was found.
    /// The gamepad mode stays untouched: writing it would clear all the functions.
    pub fn reapply_remaps(&self, if_num: Option<&str>) -> (attributes: Vec<Attribute>)
        ensures
            device::attributes(attributes@) == resume_setup(
                match if_num {
                    Some(number) => Some(number@),
                    None => None,
                },
            ),
    {
        if let Some(number) = if_num {
            if text::equal(number, "02") {
                return remaps();
            }
        }
        let attributes: Vec<Attribute> = Vec::new();
        assert(device::attributes(attributes@) =~= Seq::empty());
        attributes
    }
}

/// What is set after a resume never holds the gamepad mode.
pub proof fn law_resume_keeps_the_gamepad_mode(number: Option<Seq<char>>, value: Seq<char>)
    ensures
        !resume_setup(number).contains(("gamepad_mode"@, value)),
{
    reveal_strlit("gamepad_mode");
    reveal_strlit("btn_m1/remap");
    reveal_strlit("btn_m2/remap");
    assert("gamepad_mode"@[0] == 'g');
    assert("btn_m1/remap"@[0] == 'b' && "btn_m2/remap"@[0] == 'b');
}

/// A resume sets nothing that was not set at the start, and gives the back buttons the same
/// functions again.
pub proof fn law_resume_repeats_the_start(number: Seq<char>, attribute: (Seq<char>, Seq<char>))
    requires
        resume_setup(Some(number)).contains(attribute),
    ensures
        device_setup(number) matches Some(list) && list.contains(attribute),
{
    let list = button_remaps().push(("gamepad_mode"@, "1"@));
    assert(list[0] == button_remaps()[0] && list[1] == button_remaps()[1]);
}

} // verus!
