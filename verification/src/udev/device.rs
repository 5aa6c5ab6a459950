//! What udev knows of a device.

use vstd::prelude::*;

use crate::table::Table;
use crate::text;

verus! {

/// Identity of a device as its udev entry gives it.
#[derive(Clone, Debug)]
pub struct UdevDevice {
    /// Path of the device node.
    pub devnode: String,
    /// Name of the device in sysfs.
    pub sysname: String,
    /// Name that the device gives itself.
    pub name: String,
    /// USB vendor id.
    pub id_vendor: u16,
    /// USB product id.
    pub id_product: u16,
}

/// An attribute of a device and the value that it is set to.
#[derive(Debug)]
pub struct Attribute {
    pub name: String,
    pub value: String,
}

impl View for Attribute {
    type V = (Seq<char>, Seq<char>);

    open spec fn view(&self) -> (Seq<char>, Seq<char>) {
        (self.name@, self.value@)
    }
}

impl Attribute {
    /// The attribute `name`, set to `value`.
    pub fn new(name: &str, value: &str) -> (attribute: Self)
        ensures
            attribute@ == (name@, value@),
    {
        Attribute { name: name.to_owned(), value: value.to_owned() }
    }
}

/// The names and values of some attributes.
pub open spec fn attributes(list: Seq<Attribute>) -> Seq<(Seq<char>, Seq<char>)> {
    list.map_values(|attribute: Attribute| attribute@)
}

/// A device as `udevadm info` describes it.
pub struct Device {
    /// Device path below /sys.
    pub path: String,
    /// Last component of the device path.
    pub name: String,
    /// Number at the end of the name.
    pub number: u64,
    /// Kernel subsystem.
    pub subsystem: String,
    /// Kernel device type within the subsystem.
    pub device_type: String,
    /// Major and minor number of the device node.
    pub node: String,
    /// Network interface index.
    pub network_index: String,
    /// Name of the device node.
    pub node_name: String,
    /// Priority of the device node's links.
    pub symlink_priority: u32,
    /// Links to the device node.
    pub symlink: Vec<String>,
    /// Block device sequence number.
    pub sequence_num: u64,
    /// Attached driver.
    pub driver: String,
    /// Device properties.
    pub properties: Table<String>,
}

/// The contents of a [`Device`].
#[verifier::ext_equal]
pub struct DeviceModel {
    pub path: Seq<char>,
    pub name: Seq<char>,
    pub number: u64,
    pub subsystem: Seq<char>,
    pub device_type: Seq<char>,
    pub node: Seq<char>,
    pub network_index: Seq<char>,
    pub node_name: Seq<char>,
    pub symlink_priority: u32,
    pub symlink: Seq<Seq<char>>,
    pub sequence_num: u64,
    pub driver: Seq<char>,
    pub properties: Map<Seq<char>, Seq<char>>,
}

impl View for Device {
    type V = DeviceModel;

    open spec fn view(&self) -> DeviceModel {
        DeviceModel {
            path: self.path@,
            name: self.name@,
            number: self.number,
            subsystem: self.subsystem@,
            device_type: self.device_type@,
            node: self.node@,
            network_index: self.network_index@,
            node_name: self.node_name@,
            symlink_priority: self.symlink_priority,
            symlink: text::views(self.symlink@),
            sequence_num: self.sequence_num,
            driver: self.driver@,
            properties: self.properties@.map_values(|s: String| s@),
        }
    }
}

pub const PATH_TAG: &'static str = "P: ";

pub const NAME_TAG: &'static str = "M: ";

pub const NUMBER_TAG: &'static str = "R: ";

pub const SUBSYSTEM_TAG: &'static str = "U: ";

pub const TYPE_TAG: &'static str = "T: ";

pub const NODE_TAG: &'static str = "D: ";

pub const NETWORK_TAG: &'static str = "I: ";

pub const NODE_NAME_TAG: &'static str = "N: ";

pub const PRIORITY_TAG: &'static str = "L: ";

pub const SYMLINK_TAG: &'static str = "S: ";

pub const SEQUENCE_TAG: &'static str = "Q: ";

pub const DRIVER_TAG: &'static str = "V: ";

pub const PROPERTY_TAG: &'static str = "E: ";

/// A device of which nothing is known.
pub open spec fn unknown_device() -> DeviceModel {
    DeviceModel {
        path: Seq::empty(),
        name: Seq::empty(),
        number: 0,
        subsystem: Seq::empty(),
        device_type: Seq::empty(),
        node: Seq::empty(),
        network_index: Seq::empty(),
        node_name: Seq::empty(),
        symlink_priority: 0,
        symlink: Seq::empty(),
        sequence_num: 0,
        driver: Seq::empty(),
        properties: Map::empty(),
    }
}

/// The value of a line that carries `tag`: the line without the tag, wherever the tag occurs.
pub open spec fn tagged(line: Seq<char>, tag: Seq<char>) -> Option<Seq<char>> {
    if tag.is_prefix_of(line) {
        Some(text::without(line, tag))
    } else {
        None
    }
}

/// The number that `value` writes, or zero.
pub open spec fn number_or_zero(value: Seq<char>, max: nat) -> nat {
    match text::unsigned(value, max) {
        Some(number) => number,
        None => 0,
    }
}

/// What `device` becomes by one more line of the description.
pub open spec fn with_line(device: DeviceModel, line: Seq<char>) -> DeviceModel {
    if let Some(value) = tagged(line, PATH_TAG@) {
        DeviceModel { path: value, ..device }
    } else if let Some(value) = tagged(line, NAME_TAG@) {
        DeviceModel { name: value, ..device }
    } else if let Some(value) = tagged(line, NUMBER_TAG@) {
        DeviceModel { number: number_or_zero(value, u64::MAX as nat) as u64, ..device }
    } else if let Some(value) = tagged(line, SUBSYSTEM_TAG@) {
        DeviceModel { subsystem: value, ..device }
    } else if let Some(value) = tagged(line, TYPE_TAG@) {
        DeviceModel { device_type: value, ..device }
    } else if let Some(value) = tagged(line, NODE_TAG@) {
        DeviceModel { node: value, ..device }
    } else if let Some(value) = tagged(line, NETWORK_TAG@) {
        DeviceModel { network_index: value, ..device }
    } else if let Some(value) = tagged(line, NODE_NAME_TAG@) {
        DeviceModel { node_name: value, ..device }
    } else if let Some(value) = tagged(line, PRIORITY_TAG@) {
        DeviceModel { symlink_priority: number_or_zero(value, u32::MAX as nat) as u32, ..device }
    } else if let Some(value) = tagged(line, SYMLINK_TAG@) {
        DeviceModel { symlink: device.symlink.push(value), ..device }
    } else if let Some(value) = tagged(line, SEQUENCE_TAG@) {
        DeviceModel { sequence_num: number_or_zero(value, u64::MAX as nat) as u64, ..device }
    } else if let Some(value) = tagged(line, DRIVER_TAG@) {
        DeviceModel { driver: value, ..device }
    } else if let Some(value) = tagged(line, PROPERTY_TAG@) {
        match text::cut(value, '=') {
            Some((key, held)) => DeviceModel {
                properties: device.properties.insert(key, held),
                ..device
            },
            None => device,
        }
    } else {
        device
    }
}

/// The device that the lines of a description give, taken from first to last.
pub open spec fn described_by(lines: Seq<Seq<char>>) -> DeviceModel
    decreases lines.len(),
{
    if lines.len() == 0 {
        unknown_device()
    } else {
        with_line(described_by(lines.drop_last()), lines.last())
    }
}

impl Device {
    /// The properties are a map.
    pub open spec fn wf(&self) -> bool {
        self.properties.wf()
    }

    /// A device of which nothing is known.
    pub fn new() -> (device: Self)
        ensures
            device.wf(),
            device@ == unknown_device(),
    {
        let device = Device {
            path: String::new(),
            name: String::new(),
            number: 0,
            subsystem: String::new(),
            device_type: String::new(),
            node: String::new(),
            network_index: String::new(),
            node_name: String::new(),
            symlink_priority: 0,
            symlink: Vec::new(),
            sequence_num: 0,
            driver: String::new(),
            properties: Table::new(),
        };
        assert(device@ =~= unknown_device());
        device
    }

    /// Takes up one line of the description.
    pub fn take_line(&mut self, line: &str)
        requires
            old(self).wf(),
        ensures
            final(self).wf(),
            final(self)@ == with_line(old(self)@, line@),
    {
        if text::starts_with(line, PATH_TAG) {
            self.path = text::remove_all(line, PATH_TAG);
        } else if text::starts_with(line, NAME_TAG) {
            self.name = text::remove_all(line, NAME_TAG);
        } else if text::starts_with(line, NUMBER_TAG) {
            self.number = match text::parse_u64(text::remove_all(line, NUMBER_TAG).as_str()) {
                Some(number) => number,
                None => 0,
            };
        } else if text::starts_with(line, SUBSYSTEM_TAG) {
            self.subsystem = text::remove_all(line, SUBSYSTEM_TAG);
        } else if text::starts_with(line, TYPE_TAG) {
            self.device_type = text::remove_all(line, TYPE_TAG);
        } else if text::starts_with(line, NODE_TAG) {
            self.node = text::remove_all(line, NODE_TAG);
        } else if text::starts_with(line, NETWORK_TAG) {
            self.network_index = text::remove_all(line, NETWORK_TAG);
        } else if text::starts_with(line, NODE_NAME_TAG) {
            self.node_name = text::remove_all(line, NODE_NAME_TAG);
        } else if text::starts_with(line, PRIORITY_TAG) {
            self.symlink_priority =
            match text::parse_u32(text::remove_all(line, PRIORITY_TAG).as_str()) {
                Some(number) => number,
                None => 0,
            };
        } else if text::starts_with(line, SYMLINK_TAG) {
            let ghost before = self.symlink@;
            let link = text::remove_all(line, SYMLINK_TAG);
            self.symlink.push(link);
            assert(text::views(self.symlink@) =~= text::views(before).push(link@));
        } else if text::starts_with(line, SEQUENCE_TAG) {
            self.sequence_num = match text::parse_u64(text::remove_all(line, SEQUENCE_TAG).as_str()) {
                Some(number) => number,
                None => 0,
            };
        } else if text::starts_with(line, DRIVER_TAG) {
            self.driver = text::remove_all(line, DRIVER_TAG);
        } else if text::starts_with(line, PROPERTY_TAG) {
            let property = text::remove_all(line, PROPERTY_TAG);
            if let Some((key, value)) = text::split_once(property.as_str(), '=') {
                let ghost before = self.properties@;
                let ghost name = key@;
                self.properties.insert(key, value);
                assert(self.properties@.map_values(|s: String| s@) =~= before.map_values(
                    |s: String| s@,
                ).insert(name, value@));
            }
        }
    }
}

} // verus!
