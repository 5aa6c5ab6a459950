//! ROG Ally handhelds, which only need configuration.

use vstd::prelude::*;

use crate::drivers::rog_ally::driver;
use crate::drivers::rog_ally::driver::{Driver, DriverError, Parent, Setup};
use crate::input::capability::Capability;
use crate::input::event::NativeEvent;
use crate::udev::device;
use crate::udev::device::{Attribute, UdevDevice};

verus! {

/// XpadUhid source device implementation
pub struct RogAlly {
    pub driver: Driver,
}

impl RogAlly {
    /// Create a new source device with the given udev
    /// device information, and what is set for it.
    pub fn new(device_info: UdevDevice, parent: Option<Parent>, if_num: &str) -> (result: Result<
        (Self, Setup),
        DriverError,
    >)
        ensures
            match result {
                Ok((source, setup)) => {
                    &&& driver::is_ally(device_info)
                    &&& parent matches Some(Parent { driver: Some(name) })
                    &&& driver::is_ally_driver(name@)
                    &&& source.driver.device == device_info
                    &&& driver::device_setup(if_num@) == Some(device::attributes(setup.device@))
                    &&& driver::parent_setup(if_num@) == device::attributes(setup.parent@)
                },
                Err(DriverError::NotAlly { devnode }) => {
                    &&& !driver::is_ally(device_info)
                    &&& devnode@ == device_info.devnode@
                },
                Err(DriverError::NoParent) => driver::is_ally(device_info) && parent is None,
                Err(DriverError::NoDriver) => {
                    &&& driver::is_ally(device_info)
                    &&& parent matches Some(Parent { driver: None })
                },
                Err(DriverError::WrongDriver) => {
                    &&& driver::is_ally(device_info)
                    &&& parent matches Some(Parent { driver: Some(name) })
                    &&& !driver::is_ally_driver(name@)
                },
                Err(DriverError::InvalidInterface { number }) => {
                    &&& driver::is_ally(device_info)
                    &&& parent matches Some(Parent { driver: Some(name) })
                    &&& driver::is_ally_driver(name@)
                    &&& driver::device_setup(if_num@) is None
                    &&& number@ == if_num@
                },
            },
    {
        match Driver::new(device_info, parent, if_num) {
            Ok((driver, setup)) => Ok((RogAlly { driver }, setup)),
            Err(e) => Err(e),
        }
    }

    /// The device gives no events here.
    pub fn poll(&mut self) -> (events: Vec<NativeEvent>)
        ensures
            events@ == Seq::<NativeEvent>::empty(),
            *final(self) == *old(self),
    {
        Vec::new()
    }

    /// The device has no capabilities here.
    pub fn get_capabilities(&self) -> (capabilities: Vec<Capability>)
        ensures
            capabilities@ == Seq::<Capability>::empty(),
    {
        Vec::new()
    }

    /// The attributes to set after a resume. `if_num` is the number of the interface, if the
    /// device was found.
    pub fn on_resume(&mut self, if_num: Option<&str>) -> (attributes: Vec<Attribute>)
        ensures
            device::attributes(attributes@) == driver::resume_setup(
                match if_num {
                    Some(number) => Some(number@),
                    None => None,
                },
            ),
            *final(self) == *old(self),
    {
        self.driver.reapply_remaps(if_num)
    }
}

} // verus!
