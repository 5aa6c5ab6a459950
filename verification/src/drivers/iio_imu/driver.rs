//! Reading IIO IMU data.

use vstd::prelude::*;

use crate::float::Float;
use crate::input::capability::{Capability, CapabilitySet, Source};
use crate::table::Table;
use crate::text;

use super::event::{AxisData, AxisValue, Event, Reading};
use super::info::{AxisInfo, MountMatrix};

verus! {

/// A poll that takes longer than this many milliseconds is slow.
pub const POLL_SLOW_THRESHOLD: u64 = 1000;

/// How long polling pauses after a slow poll, in milliseconds.
pub const POLL_BACKOFF_SLEEP: u64 = 3000;

/// The kernel module in whose presence the sensors are read elsewhere.
pub const LENOVO_GO_MODULE: &'static str = "hid_lenovo_go";

/// How a sensor is read.
#[derive(Clone, Copy, Debug, PartialEq, Eq, Structural)]
pub enum ReadMode {
    /// Each channel through its attribute.
    Sysfs,
    /// All channels through a buffer of samples of `storage_bits` bits.
    Buffer { poll_fd: i32, storage_bits: u32 },
}

/// A buffer that was opened.
#[derive(Clone, Copy, Debug, PartialEq, Eq, Structural)]
pub struct OpenBuffer {
    pub poll_fd: i32,
    pub storage_bits: u32,
}

/// Why a sensor is refused.
#[derive(Clone, Copy, Debug, PartialEq, Eq, Structural)]
pub enum DriverError {
    /// There is no such device.
    DeviceNotFound,
}

impl DriverError {
    /// What the error says.
    pub open spec fn text(self) -> Seq<char> {
        match self {
            DriverError::DeviceNotFound => "Failed to find device"@,
        }
    }

    /// What the error says.
    pub fn message(&self) -> (message: String)
        ensures
            message@ == self.text(),
    {
        match self {
            DriverError::DeviceNotFound => "Failed to find device".to_owned(),
        }
    }
}

/// The channels of a device.
pub struct Channels {
    pub accel: Table<AxisInfo>,
    pub gyro: Table<AxisInfo>,
}

/// Driver for reading IIO IMU data
pub struct Driver {
    pub mount_matrix: MountMatrix,
    pub accel: Table<AxisInfo>,
    pub gyro: Table<AxisInfo>,
    /// List of events that should not be generated
    pub filtered_events: CapabilitySet,
    pub read_mode: ReadMode,
}

/// The matrix that applies: the configured one, or else the one that the device gives, or else the
/// identity.
pub open spec fn effective_matrix(
    configured: Option<MountMatrix>,
    mounted: Option<MountMatrix>,
) -> MountMatrix {
    match configured {
        Some(matrix) => matrix,
        None => match mounted {
            Some(matrix) => matrix,
            None => MountMatrix::identity(),
        },
    }
}

/// How the sensor is read: through the buffer, where it could be opened and is not ruled out.
pub open spec fn effective_mode(use_buffer: Option<bool>, buffer: Option<OpenBuffer>) -> ReadMode {
    match buffer {
        Some(buffer) if use_buffer != Some(false) => ReadMode::Buffer {
            poll_fd: buffer.poll_fd,
            storage_bits: buffer.storage_bits,
        },
        _ => ReadMode::Sysfs,
    }
}

/// What channel `at` reads where its raw value is `raw`.
pub open spec fn reading(table: Table<AxisInfo>, at: int, raw: i64) -> Reading {
    let info = table@[table.order()[at]];
    Reading { count: (raw + info.offset) as i64, scale: info.scale }
}

/// The id of the channel names the axis.
pub open spec fn is_axis(id: Seq<char>, axis: char) -> bool {
    id.len() > 0 && id.last() == axis
}

/// The reading for an axis: that of the last channel, in the order of the table, that names it and
/// could be read.
pub open spec fn axis_reading(table: Table<AxisInfo>, raw: Seq<Option<i64>>, axis: char) -> Option<
    Reading,
>
    decreases raw.len(),
{
    if raw.len() == 0 {
        None
    } else {
        let at = raw.len() - 1;
        match raw.last() {
            Some(value) if is_axis(table.order()[at], axis) => Some(reading(table, at, value)),
            _ => axis_reading(table, raw.drop_last(), axis),
        }
    }
}

/// The readings of a sensor along its own axes.
pub struct Readings {
    pub x: Option<Reading>,
    pub y: Option<Reading>,
    pub z: Option<Reading>,
}

/// The readings of a sensor along its own axes.
pub open spec fn readings(table: Table<AxisInfo>, raw: Seq<Option<i64>>) -> Readings {
    Readings {
        x: axis_reading(table, raw, 'x'),
        y: axis_reading(table, raw, 'y'),
        z: axis_reading(table, raw, 'z'),
    }
}

/// The readings multiplied by a row of the mount matrix.
pub open spec fn weighed(row: (Float, Float, Float), values: Readings) -> AxisValue {
    AxisValue { mx: row.0, my: row.1, mz: row.2, x: values.x, y: values.y, z: values.z }
}

/// The readings as they are along the axes of the device.
pub open spec fn rotated(matrix: MountMatrix, values: Readings) -> AxisData {
    AxisData {
        roll: weighed(matrix.x, values),
        pitch: weighed(matrix.y, values),
        yaw: weighed(matrix.z, values),
    }
}

/// What a sensor says, by the raw values of its channels.
pub open spec fn sensor_data(
    matrix: MountMatrix,
    table: Table<AxisInfo>,
    raw: Seq<Option<i64>>,
) -> AxisData {
    rotated(matrix, readings(table, raw))
}

/// No raw value leaves the range of 64 bits when the offset of its channel is added.
pub open spec fn in_range(table: Table<AxisInfo>, raw: Seq<Option<i64>>) -> bool {
    forall|i: int|
        0 <= i < raw.len() ==> (#[trigger] raw[i] matches Some(value) ==> i64::MIN <= value
            + table@[table.order()[i]].offset <= i64::MAX)
}

/// The values that were read, with a gap for each failure.
pub open spec fn values_read<E>(raw: Seq<Result<i64, E>>) -> Seq<Option<i64>> {
    raw.map_values(
        |value: Result<i64, E>|
            match value {
                Ok(value) => Some(value),
                Err(_) => None,
            },
    )
}

/// The first failure.
pub open spec fn first_failure<E>(raw: Seq<Result<i64, E>>) -> Option<E>
    decreases raw.len(),
{
    if raw.len() == 0 {
        None
    } else {
        match raw[0] {
            Ok(_) => first_failure(raw.skip(1)),
            Err(e) => Some(e),
        }
    }
}

/// What was read of the channels in `table`: a value of each, or those up to a failure.
pub open spec fn is_reading_of<E>(table: Table<AxisInfo>, raw: Seq<Result<i64, E>>) -> bool {
    &&& raw.len() <= table.order().len()
    &&& first_failure(raw) is None ==> raw.len() == table.order().len()
    &&& in_range(table, values_read(raw))
}

/// What was sampled of the channels in `table`.
pub open spec fn is_sample_of(table: Table<AxisInfo>, raw: Seq<Option<i64>>) -> bool {
    raw.len() == table.order().len() && in_range(table, raw)
}

/// The values, or the first failure.
fn all_read<E>(raw: Vec<Result<i64, E>>) -> (result: Result<Vec<Option<i64>>, E>)
    ensures
        match result {
            Ok(values) => first_failure(raw@) is None && values@ == values_read(raw@),
            Err(e) => first_failure(raw@) == Some(e),
        },
{
    let mut values: Vec<Option<i64>> = Vec::new();
    let ghost all = raw@;
    assert(all.skip(0) =~= all);
    for value in it: raw
        invariant
            it.seq() == all,
            first_failure(all) == first_failure(all.skip(it.index() as int)),
            values@ == values_read(all.take(it.index() as int)),
    {
        let ghost rest = all.skip(it.index() as int);
        assert(rest[0] == value);
        assert(rest.skip(1) =~= all.skip(it.index() + 1));
        match value {
            Ok(value) => {
                values.push(Some(value));
            },
            Err(e) => {
                return Err(e);
            },
        }
        assert(values@ =~= values_read(all.take(it.index() + 1)));
    }
    assert(all.take(all.len() as int) =~= all);
    Ok(values)
}

/// The last character of an id.
fn last_char(id: &String) -> (last: Option<char>)
    ensures
        match last {
            Some(c) => id@.len() > 0 && c == id@.last(),
            None => id@.len() == 0,
        },
{
    let chars = text::to_chars(id.as_str());
    if chars.len() == 0 {
        None
    } else {
        Some(chars[chars.len() - 1])
    }
}

/// The readings of a sensor along its own axes.
fn read_axes(table: &Table<AxisInfo>, raw: &Vec<Option<i64>>) -> (data: Readings)
    requires
        table.wf(),
        raw@.len() <= table.order().len(),
        in_range(*table, raw@),
    ensures
        data == readings(*table, raw@),
{
    let mut data = Readings { x: None, y: None, z: None };
    let mut at: usize = 0;
    while at < raw.len()
        invariant
            table.wf(),
            at <= raw.len(),
            raw@.len() <= table.order().len(),
            in_range(*table, raw@),
            data == readings(*table, raw@.take(at as int)),
        decreases raw.len() - at,
    {
        assert(raw@.take(at + 1).drop_last() =~= raw@.take(at as int));
        if let Some(value) = raw[at] {
            assert(raw@[at as int] matches Some(v) && v == value);
            let info = table.value_at(at);
            let reading = Reading { count: value + info.offset, scale: info.scale };
            match last_char(table.key_at(at)) {
                Some('x') => {
                    data.x = Some(reading);
                },
                Some('y') => {
                    data.y = Some(reading);
                },
                Some('z') => {
                    data.z = Some(reading);
                },
                _ => {},
            }
        }
        at = at + 1;
    }
    assert(raw@.take(at as int) =~= raw@);
    data
}

/// Rotates the given readings according to the mount matrix. This is used to calculate the final
/// value according to the sensor orientation.
pub fn rotate_value(matrix: &MountMatrix, values: &Readings) -> (data: AxisData)
    ensures
        data == rotated(*matrix, *values),
{
    let (x, y, z) = (values.x, values.y, values.z);
    AxisData {
        roll: AxisValue { mx: matrix.x.0, my: matrix.x.1, mz: matrix.x.2, x, y, z },
        pitch: AxisValue { mx: matrix.y.0, my: matrix.y.1, mz: matrix.y.2, x, y, z },
        yaw: AxisValue { mx: matrix.z.0, my: matrix.z.1, mz: matrix.z.2, x, y, z },
    }
}

/// What a sensor says, by the raw values of its channels.
fn read_sensor(matrix: &MountMatrix, table: &Table<AxisInfo>, raw: &Vec<Option<i64>>) -> (data:
    AxisData)
    requires
        table.wf(),
        raw@.len() <= table.order().len(),
        in_range(*table, raw@),
    ensures
        data == sensor_data(*matrix, *table, raw@),
{
    let values = read_axes(table, raw);
    rotate_value(matrix, &values)
}

/// What was read for a poll.
#[allow(inconsistent_fields)]
pub enum PollInput<E> {
    /// The raw values of the channels, each list up to its first failure.
    Sysfs { accel: Vec<Result<i64, E>>, gyro: Vec<Result<i64, E>> },
    /// Whether the buffer could be refilled, and the last samples of the channels.
    Buffer { refilled: bool, accel: Vec<Option<i64>>, gyro: Vec<Option<i64>> },
}

/// Whether a buffer is to be opened: unless it is ruled out.
pub fn should_try_buffer(use_buffer: Option<bool>) -> (wanted: bool)
    ensures
        wanted == (use_buffer != Some(false)),
{
    use_buffer.unwrap_or(true)
}

impl Driver {
    /// The channels are well formed.
    pub open spec fn wf(&self) -> bool {
        &&& self.accel.wf()
        &&& self.gyro.wf()
        &&& self.filtered_events.wf()
    }

    /// The device has an accelerometer, and its events are wanted.
    pub open spec fn emits_accel(&self) -> bool {
        &&& self.accel.order().len() > 0
        &&& !self.filtered_events@.contains(Capability::Accelerometer(Source::Center))
    }

    /// The device has a gyroscope, and its events are wanted.
    pub open spec fn emits_gyro(&self) -> bool {
        &&& self.gyro.order().len() > 0
        &&& !self.filtered_events@.contains(Capability::Gyroscope(Source::Center))
    }

    /// The event of the accelerometer, if there is to be one.
    pub open spec fn accel_events(&self, raw: Seq<Option<i64>>, timestamp: u64) -> Seq<
        Event,
    > {
        if self.emits_accel() {
            seq![Event::Accelerometer(sensor_data(self.mount_matrix, self.accel, raw), timestamp)]
        } else {
            Seq::empty()
        }
    }

    /// The event of the gyroscope, if there is to be one.
    pub open spec fn gyro_events(&self, raw: Seq<Option<i64>>, timestamp: u64) -> Seq<Event> {
        if self.emits_gyro() {
            seq![Event::Gyro(sensor_data(self.mount_matrix, self.gyro, raw), timestamp)]
        } else {
            Seq::empty()
        }
    }

    /// The events of a poll, or the failure that it ends with.
    pub open spec fn polled<E>(&self, input: PollInput<E>, timestamp: u64) -> Result<
        Seq<Event>,
        E,
    > {
        match input {
            PollInput::Sysfs { accel, gyro } => {
                let accel_failure = if self.emits_accel() {
                    first_failure(accel@)
                } else {
                    None
                };
                let gyro_failure = if self.emits_gyro() {
                    first_failure(gyro@)
                } else {
                    None
                };
                match (accel_failure, gyro_failure) {
                    (Some(e), _) => Err(e),
                    (None, Some(e)) => Err(e),
                    (None, None) => Ok(
                        self.accel_events(values_read(accel@), timestamp) + self.gyro_events(
                            values_read(gyro@),
                            timestamp,
                        ),
                    ),
                }
            },
            PollInput::Buffer { refilled, accel, gyro } => if refilled {
                Ok(self.accel_events(accel@, timestamp) + self.gyro_events(gyro@, timestamp))
            } else {
                Ok(Seq::empty())
            },
        }
    }

    /// The input is what the driver needs in its mode, as far as it looks at it.
    pub open spec fn accepts<E>(&self, input: PollInput<E>) -> bool {
        match input {
            PollInput::Sysfs { accel, gyro } => {
                &&& self.read_mode is Sysfs
                &&& self.emits_accel() ==> is_reading_of(self.accel, accel@)
                &&& self.emits_gyro() && !(self.emits_accel() && first_failure(accel@) is Some)
                    ==> is_reading_of(self.gyro, gyro@)
            },
            PollInput::Buffer { refilled, accel, gyro } => {
                &&& self.read_mode is Buffer
                &&& refilled && self.emits_accel() ==> is_sample_of(self.accel, accel@)
                &&& refilled && self.emits_gyro() ==> is_sample_of(self.gyro, gyro@)
            },
        }
    }

    /// A driver for a device with these channels: `matrix` is the configured mount matrix,
    /// `mounted` the one that the device gives, and `buffer` the buffer that could be opened.
    pub fn new(
        channels: Option<Channels>,
        matrix: Option<MountMatrix>,
        mounted: Option<MountMatrix>,
        use_buffer: Option<bool>,
        buffer: Option<OpenBuffer>,
    ) -> (result: Result<Self, DriverError>)
        requires
            channels matches Some(found) ==> found.accel.wf() && found.gyro.wf(),
        ensures
            match result {
                Ok(driver) => {
                    &&& channels matches Some(found)
                    &&& driver.wf()
                    &&& driver.accel == found.accel
                    &&& driver.gyro == found.gyro
                    &&& driver.mount_matrix == effective_matrix(matrix, mounted)
                    &&& driver.filtered_events@ == Set::<Capability>::empty()
                    &&& driver.read_mode == effective_mode(use_buffer, buffer)
                },
                Err(e) => channels is None && e == DriverError::DeviceNotFound,
            },
    {
        let channels = match channels {
            Some(channels) => channels,
            None => {
                return Err(DriverError::DeviceNotFound);
            },
        };
        let mount_matrix = match matrix {
            Some(matrix) => matrix,
            None => match mounted {
                Some(matrix) => matrix,
                None => MountMatrix::default(),
            },
        };
        let read_mode = match buffer {
            Some(buffer) => if should_try_buffer(use_buffer) {
                ReadMode::Buffer { poll_fd: buffer.poll_fd, storage_bits: buffer.storage_bits }
            } else {
                ReadMode::Sysfs
            },
            None => ReadMode::Sysfs,
        };
        Ok(
            Driver {
                mount_matrix,
                accel: channels.accel,
                gyro: channels.gyro,
                filtered_events: CapabilitySet::new(),
                read_mode,
            },
        )
    }

    /// Whether the device has an accelerometer.
    pub fn has_accel(&self) -> (found: bool)
        requires
            self.wf(),
        ensures
            found == (self.accel.order().len() > 0),
    {
        !self.accel.is_empty()
    }

    /// Whether the device has a gyroscope.
    pub fn has_gyro(&self) -> (found: bool)
        requires
            self.wf(),
        ensures
            found == (self.gyro.order().len() > 0),
    {
        !self.gyro.is_empty()
    }

    /// Replaces the set of events that are not generated.
    pub fn update_filtered_events(&mut self, events: CapabilitySet)
        requires
            old(self).wf(),
            events.wf(),
        ensures
            final(self).wf(),
            final(self).filtered_events == events,
            final(self).accel == old(self).accel,
            final(self).gyro == old(self).gyro,
            final(self).mount_matrix == old(self).mount_matrix,
            final(self).read_mode == old(self).read_mode,
    {
        self.filtered_events = events;
    }

    /// The descriptor that tells when samples are there.
    pub fn poll_fd(&self) -> (fd: Option<i32>)
        ensures
            fd == (match self.read_mode {
                ReadMode::Buffer { poll_fd, .. } => Some(poll_fd),
                ReadMode::Sysfs => None,
            }),
    {
        match self.read_mode {
            ReadMode::Buffer { poll_fd, .. } => Some(poll_fd),
            ReadMode::Sysfs => None,
        }
    }

    /// Whether a poll looks at the channels of the accelerometer.
    pub fn reads_accel(&self) -> (found: bool)
        requires
            self.wf(),
        ensures
            found == self.emits_accel(),
    {
        !self.filtered_events.contains(Capability::Accelerometer(Source::Center))
            && !self.accel.is_empty()
    }

    /// Whether a poll looks at the channels of the gyroscope.
    pub fn reads_gyro(&self) -> (found: bool)
        requires
            self.wf(),
        ensures
            found == self.emits_gyro(),
    {
        !self.filtered_events.contains(Capability::Gyroscope(Source::Center))
            && !self.gyro.is_empty()
    }

    /// Poll the device for data
    pub fn poll<E>(&self, input: PollInput<E>, timestamp: u64) -> (result: Result<
        Vec<Event>,
        E,
    >)
        requires
            self.wf(),
            self.accepts(input),
        ensures
            match result {
                Ok(events) => self.polled(input, timestamp) == Ok::<Seq<Event>, E>(events@),
                Err(e) => self.polled(input, timestamp) == Err::<Seq<Event>, E>(e),
            },
    {
        match input {
            PollInput::Sysfs { accel, gyro } => self.poll_sysfs(accel, gyro, timestamp),
            PollInput::Buffer { refilled, accel, gyro } => Ok(
                self.poll_buffer(refilled, accel, gyro, timestamp),
            ),
        }
    }

    /// Turns the raw values of the channels into events.
    fn poll_sysfs<E>(
        &self,
        accel: Vec<Result<i64, E>>,
        gyro: Vec<Result<i64, E>>,
        timestamp: u64,
    ) -> (result: Result<Vec<Event>, E>)
        requires
            self.wf(),
            self.emits_accel() ==> is_reading_of(self.accel, accel@),
            self.emits_gyro() && !(self.emits_accel() && first_failure(accel@) is Some)
                ==> is_reading_of(self.gyro, gyro@),
        ensures
            match result {
                Ok(events) => self.polled(PollInput::Sysfs { accel, gyro }, timestamp) == Ok::<
                    Seq<Event>,
                    E,
                >(events@),
                Err(e) => self.polled(PollInput::Sysfs { accel, gyro }, timestamp) == Err::<
                    Seq<Event>,
                    E,
                >(e),
            },
    {
        let mut events: Vec<Event> = Vec::new();
        let ghost accel_values = values_read(accel@);
        let ghost gyro_values = values_read(gyro@);
        if self.reads_accel() {
            match self.poll_accel_sysfs(accel, timestamp) {
                Ok(Some(event)) => {
                    events.push(event);
                },
                Ok(None) => {},
                Err(e) => {
                    return Err(e);
                },
            }
        }
        assert(events@ =~= self.accel_events(accel_values, timestamp));
        if self.reads_gyro() {
            match self.poll_gyro_sysfs(gyro, timestamp) {
                Ok(Some(event)) => {
                    events.push(event);
                },
                Ok(None) => {},
                Err(e) => {
                    return Err(e);
                },
            }
        }
        assert(events@ =~= self.accel_events(accel_values, timestamp) + self.gyro_events(
            gyro_values,
            timestamp,
        ));
        Ok(events)
    }

    /// Turns the last samples of the channels into events.
    fn poll_buffer(
        &self,
        refilled: bool,
        accel: Vec<Option<i64>>,
        gyro: Vec<Option<i64>>,
        timestamp: u64,
    ) -> (events: Vec<Event>)
        requires
            self.wf(),
            refilled && self.emits_accel() ==> is_sample_of(self.accel, accel@),
            refilled && self.emits_gyro() ==> is_sample_of(self.gyro, gyro@),
        ensures
            events@ == (if refilled {
                self.accel_events(accel@, timestamp) + self.gyro_events(gyro@, timestamp)
            } else {
                Seq::empty()
            }),
    {
        let mut events: Vec<Event> = Vec::new();
        if !refilled {
            return events;
        }
        if self.reads_accel() {
            let data = read_sensor(&self.mount_matrix, &self.accel, &accel);
            events.push(Event::Accelerometer(data, timestamp));
        }
        assert(events@ =~= self.accel_events(accel@, timestamp));
        if self.reads_gyro() {
            let data = read_sensor(&self.mount_matrix, &self.gyro, &gyro);
            events.push(Event::Gyro(data, timestamp));
        }
        assert(events@ =~= self.accel_events(accel@, timestamp) + self.gyro_events(
            gyro@,
            timestamp,
        ));
        events
    }

    /// Polls all the channels from the accelerometer
    fn poll_accel_sysfs<E>(&self, raw: Vec<Result<i64, E>>, timestamp: u64) -> (result: Result<
        Option<Event>,
        E,
    >)
        requires
            self.wf(),
            self.accel.order().len() > 0 ==> is_reading_of(self.accel, raw@),
        ensures
            match result {
                Ok(None) => self.accel.order().len() == 0,
                Ok(Some(event)) => {
                    &&& self.accel.order().len() > 0
                    &&& first_failure(raw@) is None
                    &&& event == Event::Accelerometer(
                        sensor_data(self.mount_matrix, self.accel, values_read(raw@)),
                        timestamp,
                    )
                },
                Err(e) => self.accel.order().len() > 0 && first_failure(raw@) == Some(e),
            },
    {
        if self.accel.is_empty() {
            return Ok(None);
        }
        match all_read(raw) {
            Ok(values) => Ok(
                Some(Event::Accelerometer(read_sensor(&self.mount_matrix, &self.accel, &values), timestamp)),
            ),
            Err(e) => Err(e),
        }
    }

    /// Polls all the channels from the gyro
    fn poll_gyro_sysfs<E>(&self, raw: Vec<Result<i64, E>>, timestamp: u64) -> (result: Result<
        Option<Event>,
        E,
    >)
        requires
            self.wf(),
            self.gyro.order().len() > 0 ==> is_reading_of(self.gyro, raw@),
        ensures
            match result {
                Ok(None) => self.gyro.order().len() == 0,
                Ok(Some(event)) => {
                    &&& self.gyro.order().len() > 0
                    &&& first_failure(raw@) is None
                    &&& event == Event::Gyro(sensor_data(self.mount_matrix, self.gyro, values_read(raw@)), timestamp)
                },
                Err(e) => self.gyro.order().len() > 0 && first_failure(raw@) == Some(e),
            },
    {
        if self.gyro.is_empty() {
            return Ok(None);
        }
        match all_read(raw) {
            Ok(values) => Ok(Some(Event::Gyro(read_sensor(&self.mount_matrix, &self.gyro, &values), timestamp))),
            Err(e) => Err(e),
        }
    }

    /// The events that are not generated unless it is said otherwise: `modules` are the lines of
    /// /proc/modules.
    pub fn get_default_event_filter<E>(&self, modules: Result<Vec<Result<String, E>>, E>) -> (result:
        Result<CapabilitySet, E>)
        ensures
            match (result, module_listed(modules, LENOVO_GO_MODULE@)) {
                (Ok(filter), Ok(listed)) => filter.wf() && filter@ == default_filter(listed),
                (Err(e), Err(failure)) => e == failure,
                _ => false,
            },
    {
        match is_driver_loaded(modules, LENOVO_GO_MODULE) {
            Ok(loaded) => {
                let mut filter = CapabilitySet::new();
                if loaded {
                    filter.insert(Capability::Accelerometer(Source::Center));
                    filter.insert(Capability::Gyroscope(Source::Center));
                    assert(filter@ =~= default_filter(true));
                } else {
                    assert(filter@ =~= default_filter(false));
                }
                Ok(filter)
            },
            Err(e) => Err(e),
        }
    }
}

/// The events that are not generated unless it is said otherwise.
pub open spec fn default_filter(lenovo_go: bool) -> Set<Capability> {
    if lenovo_go {
        set![Capability::Accelerometer(Source::Center), Capability::Gyroscope(Source::Center)]
    } else {
        Set::empty()
    }
}

/// Whether one of the lines starts with the name of the module, unless a line before it could not
/// be read.
pub open spec fn listed_in<E>(lines: Seq<Result<String, E>>, name: Seq<char>) -> Result<bool, E>
    decreases lines.len(),
{
    if lines.len() == 0 {
        Ok(false)
    } else {
        match lines[0] {
            Ok(line) => if name.is_prefix_of(line@) {
                Ok(true)
            } else {
                listed_in(lines.skip(1), name)
            },
            Err(e) => Err(e),
        }
    }
}

/// Whether the list of modules names the module.
pub open spec fn module_listed<E>(
    modules: Result<Vec<Result<String, E>>, E>,
    name: Seq<char>,
) -> Result<bool, E> {
    match modules {
        Ok(lines) => listed_in(lines@, name),
        Err(e) => Err(e),
    }
}

/// Whether the list of modules names the module.
pub fn is_driver_loaded<E>(modules: Result<Vec<Result<String, E>>, E>, driver_name: &str) -> (loaded:
    Result<bool, E>)
    ensures
        loaded == module_listed(modules, driver_name@),
{
    let lines = match modules {
        Ok(lines) => lines,
        Err(e) => {
            return Err(e);
        },
    };
    let ghost all = lines@;
    assert(all.skip(0) =~= all);
    for line in it: lines
        invariant
            it.seq() == all,
            module_listed(modules, driver_name@) == listed_in(
                all.skip(it.index() as int),
                driver_name@,
            ),
    {
        let ghost rest = all.skip(it.index() as int);
        assert(rest[0] == line);
        assert(rest.skip(1) =~= all.skip(it.index() + 1));
        match line {
            Ok(line) => {
                if text::starts_with(line.as_str(), driver_name) {
                    return Ok(true);
                }
            },
            Err(e) => {
                return Err(e);
            },
        }
    }
    Ok(false)
}

/// The message for a list of modules that could not be read.
pub fn modules_error(detail: &str) -> (message: String)
    ensures
        message@ == "Failed to read '/proc/modules': "@ + detail@,
{
    text::joined("Failed to read '/proc/modules': ", detail)
}

/// How long to pause after a poll that took `elapsed` milliseconds, in milliseconds. A slow poll
/// shows that the sensor is still waking up.
pub fn poll_backoff(elapsed: u64) -> (pause: Option<u64>)
    ensures
        pause == (if elapsed > POLL_SLOW_THRESHOLD {
            Some(POLL_BACKOFF_SLEEP)
        } else {
            None
        }),
{
    if elapsed > POLL_SLOW_THRESHOLD {
        Some(POLL_BACKOFF_SLEEP)
    } else {
        None
    }
}

/// A poll gives at most one event of each sensor, that of the accelerometer first. A sensor gives
/// none where it has no channel or its events are filtered.
pub proof fn law_events_of_a_poll<E>(driver: Driver, input: PollInput<E>, timestamp: u64)
    requires
        driver.polled(input, timestamp) is Ok,
    ensures
        ({
            let events = driver.polled(input, timestamp)->Ok_0;
            &&& events.len() <= 2
            &&& forall|i: int|
                0 <= i < events.len() && #[trigger] events[i] is Accelerometer
                    ==> driver.emits_accel() && i == 0
            &&& forall|i: int|
                0 <= i < events.len() && #[trigger] events[i] is Gyro ==> driver.emits_gyro() && i
                    == events.len() - 1
        }),
{
}

/// Under the default filter for a Legion Go with its kernel module, no poll gives an event.
pub proof fn law_default_filter_silences_the_sensors<E>(
    driver: Driver,
    input: PollInput<E>,
    timestamp: u64,
)
    requires
        driver.filtered_events@ == default_filter(true),
    ensures
        driver.polled(input, timestamp) == Ok::<Seq<Event>, E>(Seq::empty()),
{
    assert(!driver.emits_accel() && !driver.emits_gyro());
    let none = Seq::<Event>::empty();
    assert(none + none =~= none);
}

/// The identity leaves readings as they are: each axis is its own reading times one, and the
/// others times zero.
pub proof fn law_identity_keeps_the_axes(values: Readings)
    ensures
        ({
            let one = Float { bits: super::info::ONE };
            let zero = Float { bits: super::info::ZERO };
            let data = rotated(MountMatrix::identity(), values);
            &&& data.roll.mx == one && data.roll.my == zero && data.roll.mz == zero
            &&& data.pitch.mx == zero && data.pitch.my == one && data.pitch.mz == zero
            &&& data.yaw.mx == zero && data.yaw.my == zero && data.yaw.mz == one
            &&& data.roll.x == values.x && data.pitch.y == values.y && data.yaw.z == values.z
        }),
{
}

} // verus!
