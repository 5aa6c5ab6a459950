//! Configuring the buttons and the gamepad mode of MSI Claw handhelds.

use vstd::prelude::*;

use crate::text;
use crate::udev::device;
use crate::udev::device::{Attribute, UdevDevice};

verus! {

pub const VID: u16 = 0x0db0;

pub const PID: u16 = 0x1901;

/// How often the command that switches the mode is written at most. The device takes commands of
/// eight bytes through a ring buffer of 64 bytes and acknowledges when the buffer is full.
pub const MODE_ATTEMPTS: u8 = 8;

/// How long the device gets to acknowledge, in milliseconds.
pub const MODE_DELAY: u64 = 50;

/// Why a device is refused.
#[derive(Debug)]
pub enum DriverError {
    /// The device has other ids.
    NotClaw { devnode: String },
    /// The interface is not one that the driver handles.
    InvalidInterface { number: String },
}

impl DriverError {
    /// What the error says.
    pub open spec fn text(self) -> Seq<char> {
        match self {
            DriverError::NotClaw { devnode } => "'"@ + devnode@ + "' is not a MSI Claw controller"@,
            DriverError::InvalidInterface { number } => "Invalid interface number "@ + number@,
        }
    }

    /// What the error says.
    pub fn message(&self) -> (message: String)
        ensures
            message@ == self.text(),
    {
        match self {
            DriverError::NotClaw { devnode } => {
                let mut message = text::joined("'", devnode.as_str());
                message.append("' is not a MSI Claw controller");
                message
            },
            DriverError::InvalidInterface { number } => text::joined(
                "Invalid interface number ",
                number.as_str(),
            ),
        }
    }
}

/// The interface of the device that a driver handles.
#[derive(Clone, Copy, Debug, PartialEq, Eq, Structural)]
pub enum Interface {
    /// The back buttons are configured through attributes.
    Buttons,
    /// Reports are exchanged through a raw HID node.
    Reports,
}

/// The interface with that number.
pub open spec fn interface_of(number: Seq<char>) -> Option<Interface> {
    if number == "01"@ {
        Some(Interface::Buttons)
    } else if number == "02"@ {
        Some(Interface::Reports)
    } else {
        None
    }
}

/// The ids are those of a Claw.
pub open spec fn is_claw(udevice: UdevDevice) -> bool {
    udevice.id_vendor == VID && udevice.id_product == PID
}

/// The configuration of the back buttons, from which they are read as keys.
pub open spec fn button_keys() -> Seq<(Seq<char>, Seq<char>)> {
    seq![("m1_remap"@, "KEY_INSERT"@), ("m2_remap"@, "KEY_DELETE"@)]
}

/// Checks that the ids are those of a Claw.
pub fn check_ids(udevice: &UdevDevice) -> (result: Result<(), DriverError>)
    ensures
        result is Ok <==> is_claw(*udevice),
        result matches Err(e) ==> e matches DriverError::NotClaw { devnode } && devnode@
            == udevice.devnode@,
{
    if udevice.id_vendor != VID || udevice.id_product != PID {
        return Err(DriverError::NotClaw { devnode: udevice.devnode.as_str().to_owned() });
    }
    Ok(())
}

/// The attributes that make the buttons M1 and M2 press keys.
pub fn configure_m_remap() -> (attributes: Vec<Attribute>)
    ensures
        device::attributes(attributes@) == button_keys(),
{
    let mut attributes: Vec<Attribute> = Vec::new();
    attributes.push(Attribute::new("m1_remap", "KEY_INSERT"));
    attributes.push(Attribute::new("m2_remap", "KEY_DELETE"));
    assert(device::attributes(attributes@) =~= button_keys());
    attributes
}

/// Where the switch to another mode stands: the thing to do next. `attempt` counts from zero.
#[derive(Clone, Copy, Debug, PartialEq, Eq, Structural)]
pub enum ModeStep {
    /// Write the command.
    Write { attempt: u8 },
    /// Let the device acknowledge.
    Wait { attempt: u8 },
    /// Poll for a report.
    Poll { attempt: u8 },
    /// Nothing is left to do.
    Done,
}

impl ModeStep {
    /// The step after this one. The command is written again until a poll brings a report, but
    /// [`MODE_ATTEMPTS`] times at most.
    pub open spec fn after(self, reported: bool) -> ModeStep {
        match self {
            ModeStep::Write { attempt } => ModeStep::Wait { attempt },
            ModeStep::Wait { attempt } => ModeStep::Poll { attempt },
            ModeStep::Poll { attempt } => if reported || attempt + 1 >= MODE_ATTEMPTS {
                ModeStep::Done
            } else {
                ModeStep::Write { attempt: (attempt + 1) as u8 }
            },
            ModeStep::Done => ModeStep::Done,
        }
    }

    /// A bound on the number of steps that are left.
    pub open spec fn remaining(self) -> nat {
        let attempts = |attempt: u8|
            if attempt < MODE_ATTEMPTS {
                3 * (MODE_ATTEMPTS - attempt) as nat
            } else {
                3nat
            };
        match self {
            ModeStep::Write { attempt } => attempts(attempt),
            ModeStep::Wait { attempt } => (attempts(attempt) - 1) as nat,
            ModeStep::Poll { attempt } => (attempts(attempt) - 2) as nat,
            ModeStep::Done => 0,
        }
    }

    /// The step after this one, once it succeeded. `reported` says whether a poll brought a report.
    pub fn next(self, reported: bool) -> (step: ModeStep)
        ensures
            step == self.after(reported),
            self != ModeStep::Done ==> step.remaining() < self.remaining(),
    {
        match self {
            ModeStep::Write { attempt } => ModeStep::Wait { attempt },
            ModeStep::Wait { attempt } => ModeStep::Poll { attempt },
            ModeStep::Poll { attempt } => if reported || attempt >= MODE_ATTEMPTS - 1 {
                ModeStep::Done
            } else {
                ModeStep::Write { attempt: attempt + 1 }
            },
            ModeStep::Done => ModeStep::Done,
        }
    }
}

/// How often the command is written from `step` on, where `reported(n)` says whether the poll of
/// attempt `n` brings a report.
pub open spec fn mode_writes(step: ModeStep, reported: spec_fn(int) -> bool) -> nat
    decreases step.remaining(),
{
    match step {
        ModeStep::Write { .. } => 1 + mode_writes(step.after(false), reported),
        ModeStep::Wait { .. } => mode_writes(step.after(false), reported),
        ModeStep::Poll { attempt } => mode_writes(step.after(reported(attempt as int)), reported),
        ModeStep::Done => 0,
    }
}

/// The number of attempts from `attempt` on, up to the first that brings a report.
pub open spec fn attempts_made(attempt: int, reported: spec_fn(int) -> bool) -> nat
    decreases MODE_ATTEMPTS - attempt,
{
    if attempt + 1 >= MODE_ATTEMPTS || reported(attempt) {
        1
    } else {
        1 + attempts_made(attempt + 1, reported)
    }
}

proof fn lemma_mode_writes(attempt: u8, reported: spec_fn(int) -> bool)
    requires
        attempt < MODE_ATTEMPTS,
    ensures
        mode_writes(ModeStep::Write { attempt }, reported) == attempts_made(
            attempt as int,
            reported,
        ),
        attempts_made(attempt as int, reported) <= MODE_ATTEMPTS - attempt,
    decreases MODE_ATTEMPTS - attempt,
{
    reveal_with_fuel(mode_writes, 4);
    if attempt + 1 < MODE_ATTEMPTS && !reported(attempt as int) {
        lemma_mode_writes((attempt + 1) as u8, reported);
    }
}

/// A driver for one interface of the device.
#[derive(Debug)]
pub struct Driver {
    pub interface: Interface,
}

impl Driver {
    /// A driver for the interface with number `if_num` of the device.
    pub fn new(udevice: &UdevDevice, if_num: &str) -> (result: Result<Self, DriverError>)
        ensures
            match result {
                Ok(driver) => is_claw(*udevice) && interface_of(if_num@) == Some(driver.interface),
                Err(DriverError::NotClaw { devnode }) => {
                    &&& !is_claw(*udevice)
                    &&& devnode@ == udevice.devnode@
                },
                Err(DriverError::InvalidInterface { number }) => {
                    &&& is_claw(*udevice)
                    &&& interface_of(if_num@) is None
                    &&& number@ == if_num@
                },
            },
    {
        match check_ids(udevice) {
            Ok(_) => {},
            Err(e) => {
                return Err(e);
            },
        }
        if text::equal(if_num, "01") {
            Ok(Driver { interface: Interface::Buttons })
        } else if text::equal(if_num, "02") {
            Ok(Driver { interface: Interface::Reports })
        } else {
            Err(DriverError::InvalidInterface { number: if_num.to_owned() })
        }
    }

    /// The attributes to set when the driver starts.
    pub fn setup(&self) -> (attributes: Vec<Attribute>)
        ensures
            device::attributes(attributes@) == (match self.interface {
                Interface::Buttons => button_keys(),
                Interface::Reports => Seq::<(Seq<char>, Seq<char>)>::empty(),
            }),
    {
        match self.interface {
            Interface::Buttons => configure_m_remap(),
            Interface::Reports => {
                let attributes: Vec<Attribute> = Vec::new();
                assert(device::attributes(attributes@) =~= Seq::empty());
                attributes
            },
        }
    }

    /// Takes a report, if there is one: `bytes_read` is what a read brought, and `report` what
    /// became of decoding it.
    pub fn poll<R, E>(&self, bytes_read: usize, report: Result<R, E>) -> (result: Result<
        Option<R>,
        E,
    >)
        ensures
            result == (if self.interface == Interface::Buttons || bytes_read == 0 {
                Ok(None)
            } else {
                match report {
                    Ok(report) => Ok(Some(report)),
                    Err(e) => Err(e),
                }
            }),
    {
        if self.interface == Interface::Buttons || bytes_read == 0 {
            return Ok(None);
        }
        match report {
            Ok(report) => Ok(Some(report)),
            Err(e) => Err(e),
        }
    }

    /// Where the switch to another mode starts.
    pub fn set_mode(&self) -> (step: ModeStep)
        ensures
            step == (match self.interface {
                Interface::Buttons => ModeStep::Done,
                Interface::Reports => ModeStep::Write { attempt: 0 },
            }),
    {
        match self.interface {
            Interface::Buttons => ModeStep::Done,
            Interface::Reports => ModeStep::Write { attempt: 0 },
        }
    }

    /// Whether a request for the mode is to be written.
    pub fn get_mode(&self) -> (write: bool)
        ensures
            write == (self.interface == Interface::Reports),
    {
        self.interface == Interface::Reports
    }
}

/// The command that switches the mode is written until the first report, and
/// [`MODE_ATTEMPTS`] times at most.
pub proof fn law_mode_command_is_repeated_until_a_report(reported: spec_fn(int) -> bool)
    ensures
        mode_writes(ModeStep::Write { attempt: 0 }, reported) == attempts_made(0, reported),
        1 <= mode_writes(ModeStep::Write { attempt: 0 }, reported) <= MODE_ATTEMPTS,
{
    lemma_mode_writes(0, reported);
}

} // verus!
