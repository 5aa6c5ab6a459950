//! What the functions of the driver give back, stated of their arguments and results.

use vstd::prelude::*;

use crate::float::Float;
use crate::input::capability::{Capability, CapabilitySet, Source};
use crate::table::Table;
use crate::text;

use super::buffer;
use super::buffer::{
    BufferError, BufferPlan, ChannelSamples, CleanupAction, CleanupStep, SampleWidth, ScanEntry,
};
use super::driver;
use super::driver::{Channels, Driver, DriverError, OpenBuffer, PollInput, ReadMode, Readings};
use super::event::{AxisData, Event};
use super::info;
use super::info::{AxisInfo, ChannelKind, FoundChannel, MountMatrix};
use super::laws;
use super::rate;
use super::rate::RateStep;

verus! {

/// A driver is made exactly where the device was found. It has the channels of the device, the
/// configured mount matrix before that of the device before the identity, no filter, and the buffer
/// that was opened, unless that is ruled out.
pub proof fn law_new_driver(
    channels: Option<Channels>,
    matrix: Option<MountMatrix>,
    mounted: Option<MountMatrix>,
    use_buffer: Option<bool>,
    buffer: Option<OpenBuffer>,
    result: Result<Driver, DriverError>,
    capability: Capability,
)
    requires
        call_ensures(Driver::new, (channels, matrix, mounted, use_buffer, buffer), result),
    ensures
        result is Ok <==> channels is Some,
        result matches Ok(made) ==> {
            let one = Float { bits: 0x3ff0_0000_0000_0000 };
            let zero = Float { bits: 0 };
            &&& made.accel == channels->0.accel
            &&& made.gyro == channels->0.gyro
            &&& matrix is Some ==> made.mount_matrix == matrix->0
            &&& matrix is None && mounted is Some ==> made.mount_matrix == mounted->0
            &&& matrix is None && mounted is None ==> {
                &&& made.mount_matrix.x == (one, zero, zero)
                &&& made.mount_matrix.y == (zero, one, zero)
                &&& made.mount_matrix.z == (zero, zero, one)
            }
            &&& !made.filtered_events@.contains(capability)
            &&& buffer is None || use_buffer == Some(false) ==> made.read_mode == ReadMode::Sysfs
            &&& buffer is Some && use_buffer != Some(false) ==> made.read_mode == (
            ReadMode::Buffer {
                poll_fd: buffer->0.poll_fd,
                storage_bits: buffer->0.storage_bits,
            })
        },
{
}

/// Every event that a poll gives, of either sensor and in either mode, is turned by the mount matrix
/// of the driver: the coefficients of roll, pitch and yaw are its rows. It carries the time of the
/// poll.
pub proof fn law_polled_events_are_rotated<E>(
    device: Driver,
    input: PollInput<E>,
    timestamp: u64,
    events: Vec<Event>,
    i: int,
)
    requires
        call_ensures(
            Driver::poll::<E>,
            (&device, input, timestamp),
            Ok::<Vec<Event>, E>(events),
        ),
        0 <= i < events@.len(),
    ensures
        ({
            let data = laws::data_of(events@[i]);
            let matrix = device.mount_matrix;
            &&& (data.roll.mx, data.roll.my, data.roll.mz) == matrix.x
            &&& (data.pitch.mx, data.pitch.my, data.pitch.mz) == matrix.y
            &&& (data.yaw.mx, data.yaw.my, data.yaw.mz) == matrix.z
            &&& data.roll.x == data.pitch.x && data.roll.x == data.yaw.x
            &&& data.roll.y == data.pitch.y && data.roll.y == data.yaw.y
            &&& data.roll.z == data.pitch.z && data.roll.z == data.yaw.z
            &&& laws::time_of(events@[i]) == timestamp
        }),
{
    laws::law_every_event_is_rotated(device, input, timestamp, i);
}

/// A poll gives one event of each sensor that has a channel and is not filtered, that of the
/// accelerometer first, unless a buffer could not be refilled.
pub proof fn law_sensors_of_a_poll<E>(
    device: Driver,
    input: PollInput<E>,
    timestamp: u64,
    events: Vec<Event>,
)
    requires
        call_ensures(
            Driver::poll::<E>,
            (&device, input, timestamp),
            Ok::<Vec<Event>, E>(events),
        ),
    ensures
        ({
            let filtered = device.filtered_events@;
            let accel = device.accel.order().len() > 0 && !filtered.contains(
                Capability::Accelerometer(Source::Center),
            ) && !laws::nothing_refilled(input);
            let gyro = device.gyro.order().len() > 0 && !filtered.contains(
                Capability::Gyroscope(Source::Center),
            ) && !laws::nothing_refilled(input);
            &&& accel && gyro ==> events@.len() == 2 && events@[0] is Accelerometer
                && events@[1] is Gyro
            &&& accel && !gyro ==> events@.len() == 1 && events@[0] is Accelerometer
            &&& !accel && gyro ==> events@.len() == 1 && events@[0] is Gyro
            &&& !accel && !gyro ==> events@.len() == 0
        }),
{
    laws::law_sensors_that_give_events(device, input, timestamp);
}

/// The reading along an axis that a poll gives is the raw value of the last channel of the same
/// sensor that measures that axis, with the offset of that channel added, and with its scale.
pub proof fn law_polled_readings<E>(
    device: Driver,
    input: PollInput<E>,
    timestamp: u64,
    events: Vec<Event>,
    i: int,
    at: int,
    axis: char,
)
    requires
        call_ensures(
            Driver::poll::<E>,
            (&device, input, timestamp),
            Ok::<Vec<Event>, E>(events),
        ),
        0 <= i < events@.len(),
        axis == 'x' || axis == 'y' || axis == 'z',
        ({
            let table = laws::channels_behind(device, events@[i]);
            let raw = laws::raw_values(input, events@[i] is Gyro);
            &&& 0 <= at < raw.len()
            &&& laws::measures(table, raw, at, axis)
            &&& forall|j: int| at < j < raw.len() ==> !laws::measures(table, raw, j, axis)
            &&& i64::MIN <= raw[at]->0 + table@[table.order()[at]].offset <= i64::MAX
        }),
    ensures
        ({
            let table = laws::channels_behind(device, events@[i]);
            let raw = laws::raw_values(input, events@[i] is Gyro);
            let info = table@[table.order()[at]];
            &&& laws::reading_along(laws::data_of(events@[i]).roll, axis) matches Some(reading)
            &&& reading.count == raw[at]->0 + info.offset
            &&& reading.scale == info.scale
        }),
{
    laws::law_reading_is_raw_plus_offset(device, input, timestamp, i, at, axis);
}

/// A poll fails with what the first value that could not be read failed with, and only with that.
pub proof fn law_failed_poll<E>(
    device: Driver,
    accel: Vec<Result<i64, E>>,
    gyro: Vec<Result<i64, E>>,
    timestamp: u64,
    result: Result<Vec<Event>, E>,
)
    requires
        call_ensures(
            Driver::poll::<E>,
            (&device, PollInput::Sysfs { accel, gyro }, timestamp),
            result,
        ),
    ensures
        ({
            let filtered = device.filtered_events@;
            let reads_accel = device.accel.order().len() > 0 && !filtered.contains(
                Capability::Accelerometer(Source::Center),
            );
            let reads_gyro = device.gyro.order().len() > 0 && !filtered.contains(
                Capability::Gyroscope(Source::Center),
            );
            match result {
                Ok(_) => {
                    &&& reads_accel ==> forall|k: int|
                        0 <= k < accel@.len() ==> #[trigger] accel@[k] is Ok
                    &&& reads_gyro ==> forall|k: int|
                        0 <= k < gyro@.len() ==> #[trigger] gyro@[k] is Ok
                },
                Err(e) => {
                    ||| reads_accel && exists|k: int|
                        0 <= k < accel@.len() && #[trigger] accel@[k] == Err::<i64, E>(e)
                            && forall|j: int| 0 <= j < k ==> accel@[j] is Ok
                    ||| reads_gyro && (reads_accel ==> forall|k: int|
                        0 <= k < accel@.len() ==> #[trigger] accel@[k] is Ok) && exists|k: int|
                        0 <= k < gyro@.len() && #[trigger] gyro@[k] == Err::<i64, E>(e)
                            && forall|j: int| 0 <= j < k ==> gyro@[j] is Ok
                },
            }
        }),
{
    laws::law_poll_fails_with_the_first_failure(device, accel, gyro, timestamp);
}

/// A sensor is there exactly if it has a channel, and read exactly if its events are also wanted.
pub proof fn law_sensors_of_a_driver(
    device: Driver,
    has_accel: bool,
    has_gyro: bool,
    reads_accel: bool,
    reads_gyro: bool,
)
    requires
        call_ensures(Driver::has_accel, (&device,), has_accel),
        call_ensures(Driver::has_gyro, (&device,), has_gyro),
        call_ensures(Driver::reads_accel, (&device,), reads_accel),
        call_ensures(Driver::reads_gyro, (&device,), reads_gyro),
    ensures
        has_accel <==> device.accel.order().len() > 0,
        has_gyro <==> device.gyro.order().len() > 0,
        reads_accel <==> has_accel && !device.filtered_events@.contains(
            Capability::Accelerometer(Source::Center),
        ),
        reads_gyro <==> has_gyro && !device.filtered_events@.contains(
            Capability::Gyroscope(Source::Center),
        ),
{
}

/// A new filter replaces the old one and nothing else.
pub proof fn law_replaced_filter(device: &mut Driver, events: CapabilitySet)
    requires
        call_ensures(Driver::update_filtered_events, (device, events), ()),
    ensures
        final(device).filtered_events == events,
        final(device).accel == old(device).accel,
        final(device).gyro == old(device).gyro,
        final(device).mount_matrix == old(device).mount_matrix,
        final(device).read_mode == old(device).read_mode,
{
}

/// The descriptor to wait for is that of the buffer, where there is one.
pub proof fn law_descriptor_to_wait_for(device: Driver, fd: Option<i32>)
    requires
        call_ensures(Driver::poll_fd, (&device,), fd),
    ensures
        device.read_mode is Sysfs ==> fd is None,
        device.read_mode matches ReadMode::Buffer { poll_fd, .. } ==> fd == Some(poll_fd),
{
}

/// By default both sensors are silent where a line of the modules starts with `hid_lenovo_go`, and
/// nothing is filtered where no line does.
pub proof fn law_default_filter_of_a_driver<E>(
    device: Driver,
    lines: Vec<Result<String, E>>,
    result: Result<CapabilitySet, E>,
    k: int,
    capability: Capability,
)
    requires
        call_ensures(
            Driver::get_default_event_filter::<E>,
            (&device, Ok::<Vec<Result<String, E>>, E>(lines)),
            result,
        ),
        forall|j: int| 0 <= j < lines@.len() ==> #[trigger] lines@[j] is Ok,
    ensures
        0 <= k < lines@.len() && "hid_lenovo_go"@.is_prefix_of(lines@[k]->Ok_0@) ==> {
            &&& result matches Ok(filter)
            &&& filter@.contains(capability) <==> capability == Capability::Accelerometer(
                Source::Center,
            ) || capability == Capability::Gyroscope(Source::Center)
        },
        (forall|j: int|
            0 <= j < lines@.len() ==> !"hid_lenovo_go"@.is_prefix_of(
                (#[trigger] lines@[j])->Ok_0@,
            )) ==> (result matches Ok(filter) && !filter@.contains(capability)),
{
    laws::law_loaded_module_is_listed(lines@, "hid_lenovo_go"@);
    laws::law_default_filter(capability);
}

/// A list of modules that could not be read leaves no default filter.
pub proof fn law_unreadable_modules<E>(
    device: Driver,
    error: E,
    result: Result<CapabilitySet, E>,
    name: &str,
    loaded: Result<bool, E>,
)
    requires
        call_ensures(
            Driver::get_default_event_filter::<E>,
            (&device, Err::<Vec<Result<String, E>>, E>(error)),
            result,
        ),
        call_ensures(
            driver::is_driver_loaded::<E>,
            (Err::<Vec<Result<String, E>>, E>(error), name),
            loaded,
        ),
    ensures
        result matches Err(e) && e == error,
        loaded == Err::<bool, E>(error),
{
}

/// A module is loaded exactly if a line starts with its name, where all lines can be read.
pub proof fn law_loaded_module<E>(
    lines: Vec<Result<String, E>>,
    name: &str,
    loaded: Result<bool, E>,
)
    requires
        call_ensures(
            driver::is_driver_loaded::<E>,
            (Ok::<Vec<Result<String, E>>, E>(lines), name),
            loaded,
        ),
        forall|j: int| 0 <= j < lines@.len() ==> #[trigger] lines@[j] is Ok,
    ensures
        loaded is Ok,
        loaded == Ok::<bool, E>(true) <==> exists|j: int|
            0 <= j < lines@.len() && name@.is_prefix_of((#[trigger] lines@[j])->Ok_0@),
{
    laws::law_loaded_module_is_listed(lines@, name@);
    match loaded {
        Ok(true) => {
            let k = choose|k: int|
                0 <= k < lines@.len() && (#[trigger] lines@[k] matches Ok(line)
                    && name@.is_prefix_of(line@)) && forall|j: int| 0 <= j < k ==> lines@[j] is Ok;
            assert(name@.is_prefix_of(lines@[k]->Ok_0@));
        },
        _ => {},
    }
}

/// A poll of more than a second is followed by three seconds of rest. A buffer is tried unless it is
/// ruled out.
pub proof fn law_pauses_and_buffers(
    elapsed: u64,
    pause: Option<u64>,
    use_buffer: Option<bool>,
    wanted: bool,
)
    requires
        call_ensures(driver::poll_backoff, (elapsed,), pause),
        call_ensures(driver::should_try_buffer, (use_buffer,), wanted),
    ensures
        elapsed > 1000 ==> pause == Some(3000u64),
        elapsed <= 1000 ==> pause is None,
        wanted <==> use_buffer != Some(false),
{
}

/// Messages say what went wrong.
pub proof fn law_messages(
    detail: &str,
    modules: String,
    missing: String,
    error: BufferError,
    refused: String,
)
    requires
        call_ensures(driver::modules_error, (detail,), modules),
        call_ensures(DriverError::message, (&DriverError::DeviceNotFound,), missing),
        call_ensures(BufferError::message, (&error,), refused),
    ensures
        modules@ == "Failed to read '/proc/modules': "@ + detail@,
        missing@ == "Failed to find device"@,
        error is NoTrigger ==> refused@ == "No suitable IIO trigger found"@,
        error is NoScanElements ==> refused@ == "No scan elements available for buffer mode"@,
{
}

/// Readings are rotated by the rows of the matrix, and all three stay with each row.
pub proof fn law_rotated_readings(matrix: MountMatrix, values: Readings, data: AxisData)
    requires
        call_ensures(driver::rotate_value, (&matrix, &values), data),
    ensures
        (data.roll.mx, data.roll.my, data.roll.mz) == matrix.x,
        (data.pitch.mx, data.pitch.my, data.pitch.mz) == matrix.y,
        (data.yaw.mx, data.yaw.my, data.yaw.mz) == matrix.z,
        data.roll.x == values.x && data.roll.y == values.y && data.roll.z == values.z,
        data.pitch.x == values.x && data.pitch.y == values.y && data.pitch.z == values.z,
        data.yaw.x == values.x && data.yaw.y == values.y && data.yaw.z == values.z,
{
}

/// The channels of a kind are those that were found with an id, and each is what was read of the last
/// one with that id: what could not be read is 0 for the offset, 4 for the rates and 1 for the
/// scales.
pub proof fn law_found_channels(
    found: Vec<FoundChannel>,
    kind: ChannelKind,
    channels: Table<AxisInfo>,
    id: Seq<char>,
    i: int,
)
    requires
        call_ensures(info::get_channels_with_type, (found, kind), channels),
    ensures
        channels@.contains_key(id) <==> exists|j: int|
            0 <= j < found@.len() && laws::is_channel(found@, j, kind, id),
        channels.order().contains(id) <==> channels@.contains_key(id),
        0 <= i < found@.len() && laws::is_channel(found@, i, kind, id) && (forall|j: int|
            i < j < found@.len() ==> !laws::is_channel(found@, j, kind, id)) ==> {
            let channel = found@[i];
            let info = channels@[id];
            let one = Float { bits: 0x3ff0_0000_0000_0000 };
            let four = Float { bits: 0x4010_0000_0000_0000 };
            &&& channel.offset matches Some(offset) ==> info.offset == offset
            &&& channel.offset is None ==> info.offset == 0
            &&& channel.sample_rate matches Some(rate) ==> info.sample_rate == rate
            &&& channel.sample_rate is None ==> info.sample_rate == four
            &&& channel.scale matches Some(scale) ==> info.scale == scale
            &&& channel.scale is None ==> info.scale == one
            &&& channel.sample_rates_avail matches Some(list) ==> info.sample_rates_avail@ == list@
            &&& channel.sample_rates_avail is None ==> info.sample_rates_avail@ == seq![four]
            &&& channel.scales_avail matches Some(list) ==> info.scales_avail@ == list@
            &&& channel.scales_avail is None ==> info.scales_avail@ == seq![one]
        },
{
    laws::law_channels_of_a_kind(found@, kind, id);
    let known = info::axes(channels@);
    assert(known.contains_key(id) == channels@.contains_key(id));
    if 0 <= i < found@.len() && laws::is_channel(found@, i, kind, id) {
        assert(known.contains_key(id));
        assert(known[id] == channels@[id]@);
        laws::law_channel_keeps_what_was_read(found@[i]);
    }
}

/// The trigger that is found is one of the triggers, a timer before one that matches the sensor
/// before any other, and the first among equals. None is found only where there is none.
pub proof fn law_found_trigger(
    devices: Vec<Option<super::trigger::Candidate>>,
    sensor: &str,
    place: Option<usize>,
    other: int,
)
    requires
        call_ensures(super::trigger::find_trigger, (&devices, sensor), place),
        0 <= other < devices@.len(),
    ensures
        ({
            let timer = |name: Seq<char>| text::occurs(name, "hrtimer"@);
            let matched = |name: Seq<char>| sensor@.is_prefix_of(name);
            let any = |name: Seq<char>| true;
            &&& place is None ==> !laws::trigger_with(devices@, other, any)
            &&& place matches Some(at) ==> {
                &&& at < devices@.len()
                &&& laws::trigger_with(devices@, at as int, any)
                &&& laws::trigger_with(devices@, other, timer) ==> laws::trigger_with(
                    devices@,
                    at as int,
                    timer,
                ) && at <= other
                &&& laws::trigger_with(devices@, other, matched) ==> laws::trigger_with(
                    devices@,
                    at as int,
                    timer,
                ) || (laws::trigger_with(devices@, at as int, matched) && at <= other)
                &&& laws::trigger_with(devices@, other, any) ==> laws::trigger_with(
                    devices@,
                    at as int,
                    timer,
                ) || laws::trigger_with(devices@, at as int, matched) || at <= other
            }
        }),
{
    match place {
        Some(at) => {
            laws::law_choice_of_the_trigger(devices@, sensor@, at as int, other);
        },
        None => {
            laws::law_no_trigger_is_overlooked(devices@, other);
        },
    }
}

/// Of the channels of a sensor exactly those are enabled that can be part of a scan, the first one
/// included, in ascending order and each once. Where none can, that is said.
pub proof fn law_enabled_channels(
    devices: Vec<Option<super::trigger::Candidate>>,
    name: &str,
    scan: Vec<bool>,
    plan: BufferPlan,
)
    requires
        call_ensures(
            buffer::try_buffer_mode,
            (&devices, name, &scan),
            Ok::<BufferPlan, BufferError>(plan),
        ),
        scan@.len() <= usize::MAX,
    ensures
        plan.channels matches Ok(channels) ==> {
            &&& forall|i: usize| #[trigger]
                channels@.contains(i) <==> 0 <= i < scan@.len() && scan@[i as int]
            &&& forall|a: int, b: int|
                0 <= a < b < channels@.len() ==> channels@[a] < channels@[b]
        },
        plan.channels is Err <==> forall|i: int| 0 <= i < scan@.len() ==> !#[trigger] scan@[i],
        plan.channels matches Err(e) ==> e == BufferError::NoScanElements,
{
    laws::law_scan_channels_are_enabled(scan@);
    let places = buffer::scan_places(scan@);
    if plan.channels is Err {
        assert forall|i: int| 0 <= i < scan@.len() implies !#[trigger] scan@[i] by {
            assert(!places.contains(i as usize));
        }
    } else {
        assert(places.contains(places[0]));
        assert(scan@[places[0] as int]);
    }
}

/// A buffer is refused exactly if there is no trigger, and uses the trigger that is found.
pub proof fn law_trigger_of_a_buffer(
    devices: Vec<Option<super::trigger::Candidate>>,
    name: &str,
    scan: Vec<bool>,
    plan: Result<BufferPlan, BufferError>,
    place: Option<usize>,
)
    requires
        call_ensures(buffer::try_buffer_mode, (&devices, name, &scan), plan),
        call_ensures(super::trigger::find_trigger, (&devices, name), place),
    ensures
        plan matches Ok(plan) ==> place == Some(plan.trigger),
        plan matches Err(e) ==> e == BufferError::NoTrigger && place is None,
{
    match (plan, place) {
        (Ok(plan), Some(at)) => {
            laws::law_choice_of_the_trigger(devices@, name@, at as int, plan.trigger as int);
        },
        (Ok(plan), None) => {
            laws::law_choice_of_the_trigger(
                devices@,
                name@,
                plan.trigger as int,
                plan.trigger as int,
            );
            laws::law_no_trigger_is_overlooked(devices@, plan.trigger as int);
        },
        (Err(_), Some(at)) => {
            laws::law_choice_of_the_trigger(devices@, name@, at as int, at as int);
            laws::law_no_trigger_is_overlooked(devices@, at as int);
        },
        (Err(_), None) => {},
    }
}

/// The samples in their order.
pub open spec fn samples_in(samples: ChannelSamples) -> Seq<int> {
    match samples {
        ChannelSamples::Bits16(list) => Seq::new(list@.len(), |i: int| list@[i] as int),
        ChannelSamples::Bits32(list) => Seq::new(list@.len(), |i: int| list@[i] as int),
        ChannelSamples::Bits64(list) => Seq::new(list@.len(), |i: int| list@[i] as int),
    }
}

/// Samples have 16, 32 or 64 bits, and the last of them counts.
pub proof fn law_samples(
    bits: u32,
    width: Option<SampleWidth>,
    samples: ChannelSamples,
    sample: Option<i64>,
)
    requires
        call_ensures(buffer::sample_width, (bits,), width),
        call_ensures(buffer::read_buffer_sample, (&samples,), sample),
    ensures
        bits == 16 ==> width == Some(SampleWidth::Bits16),
        bits == 32 ==> width == Some(SampleWidth::Bits32),
        bits == 64 ==> width == Some(SampleWidth::Bits64),
        bits != 16 && bits != 32 && bits != 64 ==> width is None,
        sample is None <==> samples_in(samples).len() == 0,
        sample matches Some(value) ==> value == samples_in(samples).last(),
{
    assert(samples_in(samples) =~= samples@);
}

/// Of a sample type of the usual form, the number between the slash and the shift sign is the size.
pub proof fn law_size_of_samples(
    kind: &str,
    bits: Option<u32>,
    ordered: bool,
    format: Seq<char>,
    digits: Seq<char>,
    rest: Seq<char>,
)
    requires
        call_ensures(buffer::parse_storage_bits, (kind,), bits),
        call_ensures(buffer::well_ordered, (kind,), ordered),
        kind@ == format + "/"@ + digits + ">>"@ + rest,
        !format.contains('/'),
        !text::occurs(format, ">>"@),
        digits.len() > 0,
        text::all_digits(digits),
        text::decimal(digits) <= u32::MAX,
    ensures
        ordered,
        bits matches Some(number) && number == text::decimal(digits),
{
    buffer::law_storage_bits_of_a_sample_type(format, digits, rest);
}

/// The size is what is read between the first slash and the first shift sign, and there is none
/// without either. The signs are out of order exactly if the shift sign comes first.
pub proof fn law_where_the_size_stands(
    kind: &str,
    bits: Option<u32>,
    ordered: bool,
    slash: Option<usize>,
    shift: Option<usize>,
    part: &str,
    number: Option<u32>,
)
    requires
        call_ensures(buffer::parse_storage_bits, (kind,), bits),
        call_ensures(buffer::well_ordered, (kind,), ordered),
        call_ensures(text::find, (kind, "/"), slash),
        call_ensures(text::find, (kind, ">>"), shift),
        call_ensures(text::parse_u32, (part,), number),
    ensures
        slash is None || shift is None ==> bits is None && ordered,
        slash is Some && shift is Some ==> {
            &&& ordered <==> slash->0 < shift->0
            &&& part@ == kind@.subrange(slash->0 + 1, shift->0 as int) ==> bits == number
        },
{
}

/// The size of the samples of a device is that of the first type that gives one, else 32.
pub proof fn law_detected_size(
    kinds: Vec<Option<String>>,
    bits: u32,
    at: int,
    kind: &str,
    parsed: Option<u32>,
)
    requires
        call_ensures(buffer::detect_storage_bits, (&kinds,), bits),
        0 <= at <= kinds@.len(),
        forall|j: int|
            0 <= j < at ==> (#[trigger] kinds@[j] matches Some(kind) ==> buffer::storage_bits(
                kind@,
            ) is None),
        at < kinds@.len() ==> {
            &&& kinds@[at] matches Some(text)
            &&& text@ == kind@
            &&& buffer::storage_bits(kind@) matches Some(number)
            &&& number <= u32::MAX
        },
        call_ensures(buffer::parse_storage_bits, (kind,), parsed),
    ensures
        at == kinds@.len() ==> bits == 32,
        at < kinds@.len() ==> parsed == Some(bits),
{
    laws::law_first_sample_type_decides(kinds@, at);
}

/// The files of the scan elements of a device.
pub proof fn law_files_of_scan_elements(
    device_id: &str,
    dir: String,
    name: &str,
    path: String,
    types: Vec<String>,
    is_switch: bool,
)
    requires
        call_ensures(buffer::scan_elements_dir, (device_id,), dir),
        call_ensures(buffer::scan_element_path, (device_id, name), path),
        call_ensures(buffer::type_paths, (device_id,), types),
        call_ensures(buffer::enables_scan_element, (name,), is_switch),
    ensures
        dir@ == "/sys/bus/iio/devices/"@ + device_id@ + "/scan_elements"@,
        path@ == dir@ + "/"@ + name@,
        types@.len() == 4,
        types@[0]@ == dir@ + "/"@ + "in_accel_x_type"@,
        types@[1]@ == dir@ + "/"@ + "in_anglvel_x_type"@,
        types@[2]@ == dir@ + "/"@ + "in_accel_y_type"@,
        types@[3]@ == dir@ + "/"@ + "in_anglvel_y_type"@,
        is_switch <==> "_en"@.is_suffix_of(name@),
{
    let listed = text::views(types@);
    assert(listed.len() == 4);
    assert(listed[0] == types@[0]@ && listed[1] == types@[1]@);
    assert(listed[2] == types@[2]@ && listed[3] == types@[3]@);
}

/// The scan elements that are disabled are exactly those whose switch was read as a one.
pub proof fn law_disabled_scan_elements(entries: Vec<ScanEntry>, places: Vec<usize>)
    requires
        call_ensures(buffer::scan_elements_to_disable, (&entries,), places),
        entries@.len() <= usize::MAX,
    ensures
        forall|i: usize| #[trigger]
            places@.contains(i) <==> 0 <= i < entries@.len() && "_en"@.is_suffix_of(
                entries@[i as int].name@,
            ) && (entries@[i as int].content matches Some(content) && text::trimmed(content@)
                == "1"@),
        forall|a: int, b: int| 0 <= a < b < places@.len() ==> places@[a] < places@[b],
{
    laws::law_enabled_elements_are_disabled(entries@);
}

/// What a cleanup does at each step to the files of the device.
pub proof fn law_actions_of_a_cleanup(
    step: CleanupStep,
    device_id: &str,
    action: CleanupAction,
    first: CleanupStep,
)
    requires
        call_ensures(CleanupStep::action, (step, device_id), action),
        call_ensures(buffer::cleanup_iio_buffer_state, (), first),
    ensures
        ({
            let dir = "/sys/bus/iio/devices/"@ + device_id@;
            &&& first is CheckBuffer
            &&& step is CheckBuffer ==> (action matches CleanupAction::Read(path) && path@ == dir
                + "/buffer/enable"@)
            &&& step is DisableBuffer ==> (action matches CleanupAction::Write { path, text }
                && path@ == dir + "/buffer/enable"@ && text@ == "0"@)
            &&& step is CheckTrigger ==> (action matches CleanupAction::Read(path) && path@ == dir
                + "/trigger/current_trigger"@)
            &&& step is UnbindTrigger ==> (action matches CleanupAction::Write { path, text }
                && path@ == dir + "/trigger/current_trigger"@ && text@ == ""@)
            &&& step is ListScanElements ==> (action matches CleanupAction::List(path) && path@
                == dir + "/scan_elements"@)
            &&& step is Done ==> action is Finished
        }),
{
}

/// The steps of a cleanup: an enabled buffer is disabled, and if that fails all is left. A trigger
/// that is named is unbound. The scan elements come last.
pub proof fn law_order_of_a_cleanup(
    step: CleanupStep,
    content: Option<&str>,
    written: bool,
    next: CleanupStep,
)
    requires
        call_ensures(CleanupStep::next, (step, content, written), next),
    ensures
        ({
            let one = content matches Some(text) && text::trimmed(text@) == "1"@;
            let named = content matches Some(text) && text::trimmed(text@).len() > 0;
            &&& step is CheckBuffer && one ==> next is DisableBuffer
            &&& step is CheckBuffer && !one ==> next is CheckTrigger
            &&& step is DisableBuffer && written ==> next is CheckTrigger
            &&& step is DisableBuffer && !written ==> next is Done
            &&& step is CheckTrigger && named ==> next is UnbindTrigger
            &&& step is CheckTrigger && !named ==> next is ListScanElements
            &&& step is UnbindTrigger ==> next is ListScanElements
            &&& step is ListScanElements ==> next is Done
            &&& step is Done ==> next is Done
        }),
{
}

/// The rates that are available are those of the first channel that lists any, or else those of the
/// device, or else none.
pub proof fn law_available_rates(
    channels: Vec<Option<Vec<Float>>>,
    device: Option<Vec<Float>>,
    rates: Vec<Float>,
    at: int,
)
    requires
        call_ensures(rate::read_sample_rates_available, (channels, device), rates),
        0 <= at <= channels@.len(),
        forall|j: int|
            0 <= j < at ==> (#[trigger] channels@[j] matches Some(list) ==> list@.len() == 0),
        at < channels@.len() ==> (channels@[at] matches Some(list) && list@.len() > 0),
    ensures
        at < channels@.len() ==> rates@ == channels@[at]->0@,
        at == channels@.len() && device is Some ==> rates@ == device->0@,
        at == channels@.len() && device is None ==> rates@.len() == 0,
{
    laws::law_first_list_of_rates_counts(channels@, device, at);
}

/// The configured rate is set, or else the greatest that is available, or else 200. The trigger gets
/// the configured rate, or else 200.
pub proof fn law_rates_that_are_set(
    configured: Option<Float>,
    available: Vec<Float>,
    set: Float,
    of_trigger: Float,
    i: int,
)
    requires
        call_ensures(rate::rate_to_set, (configured, &available), set),
        call_ensures(rate::trigger_rate, (configured,), of_trigger),
    ensures
        configured is Some ==> set == configured->0 && of_trigger == configured->0,
        configured is None ==> of_trigger.bits == 0x4069_0000_0000_0000,
        configured is None && available@.len() == 0 ==> set.bits == 0x4069_0000_0000_0000,
        configured is None && 0 <= i < available@.len() && !available@[i].is_nan() ==> {
            &&& available@[i].rank() <= set.rank()
            &&& available@.contains(set) || set.bits == 0xfff0_0000_0000_0000
        },
{
    laws::law_rate_that_is_set(configured, available@, set, i);
}

/// The attributes of a device that set and list the rates of a kind of channels.
pub proof fn law_attributes_of_rates(
    kind: ChannelKind,
    sets: Option<&'static str>,
    lists: Option<&'static str>,
)
    requires
        call_ensures(rate::rate_attribute, (kind,), sets),
        call_ensures(rate::rate_list_attribute, (kind,), lists),
    ensures
        kind is Accel ==> {
            &&& sets matches Some(name) && name@ == "in_accel_sampling_frequency"@
            &&& lists matches Some(list) && list@ == "in_accel_sampling_frequency_available"@
        },
        kind is AnglVel ==> {
            &&& sets matches Some(name) && name@ == "in_anglvel_sampling_frequency"@
            &&& lists matches Some(list) && list@ == "in_anglvel_sampling_frequency_available"@
        },
        kind is Other ==> sets is None && lists is None,
{
}

/// A rate is set for each sensor with channels, the accelerometer first.
pub proof fn law_sensors_with_a_rate(accel: usize, gyro: usize, sensors: Vec<ChannelKind>)
    requires
        call_ensures(rate::sensors_to_set, (accel, gyro), sensors),
    ensures
        accel > 0 && gyro > 0 ==> sensors@ == seq![ChannelKind::Accel, ChannelKind::AnglVel],
        accel > 0 && gyro == 0 ==> sensors@ == seq![ChannelKind::Accel],
        accel == 0 && gyro > 0 ==> sensors@ == seq![ChannelKind::AnglVel],
        accel == 0 && gyro == 0 ==> sensors@.len() == 0,
{
}

/// A rate is written to one channel after the other until a write succeeds, and to the device last.
pub proof fn law_order_of_writing_a_rate(
    step: RateStep,
    channels: usize,
    written: bool,
    next: RateStep,
    first: RateStep,
)
    requires
        call_ensures(RateStep::next, (step, channels, written), next),
        call_ensures(rate::set_sample_rate, (channels,), first),
    ensures
        channels > 0 ==> first == RateStep::Channel(0),
        channels == 0 ==> first == RateStep::Device,
        written ==> next == RateStep::Done,
        step == RateStep::Device || step == RateStep::Done ==> next == RateStep::Done,
        step matches RateStep::Channel(at) ==> {
            &&& !written && at + 1 < channels ==> (next matches RateStep::Channel(more) && more == at
                + 1)
            &&& !written && at + 1 >= channels ==> next == RateStep::Device
        },
{
}

} // verus!
