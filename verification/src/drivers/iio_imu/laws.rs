//! What the driver does with sensors, stated of its inputs and results.

use vstd::prelude::*;

use crate::float::Float;
use crate::input::capability::{Capability, Source};
use crate::table::Table;
use crate::text;

use super::buffer;
use super::driver;
use super::driver::{Driver, OpenBuffer, PollInput, ReadMode};
use super::event::{AxisData, AxisValue, Event, Reading};
use super::info;
use super::info::{AxisInfo, ChannelKind, FoundChannel, MountMatrix};
use super::rate;
use super::rate::RateStep;

verus! {

/// The data that an event carries.
pub open spec fn data_of(event: Event) -> AxisData {
    match event {
        Event::Accelerometer(data, _) => data,
        Event::Gyro(data, _) => data,
    }
}

/// The time that an event carries.
pub open spec fn time_of(event: Event) -> u64 {
    match event {
        Event::Accelerometer(_, timestamp) => timestamp,
        Event::Gyro(_, timestamp) => timestamp,
    }
}

/// The reading along one of the sensor's own axes that goes into a value.
pub open spec fn reading_along(value: AxisValue, axis: char) -> Option<Reading> {
    if axis == 'x' {
        value.x
    } else if axis == 'y' {
        value.y
    } else {
        value.z
    }
}

/// The channels of the sensor that gave an event.
pub open spec fn channels_behind(driver: Driver, event: Event) -> Table<AxisInfo> {
    if event is Gyro {
        driver.gyro
    } else {
        driver.accel
    }
}

/// The raw values that were read for a sensor, with a gap for each that could not be.
pub open spec fn raw_values<E>(input: PollInput<E>, gyroscope: bool) -> Seq<Option<i64>> {
    match input {
        PollInput::Sysfs { accel, gyro } => {
            let list = if gyroscope {
                gyro@
            } else {
                accel@
            };
            Seq::new(
                list.len(),
                |i: int|
                    match list[i] {
                        Ok(value) => Some(value),
                        Err(_) => None,
                    },
            )
        },
        PollInput::Buffer { accel, gyro, .. } => if gyroscope {
            gyro@
        } else {
            accel@
        },
    }
}

/// Channel `at` was read and its id ends with the name of the axis.
pub open spec fn measures(
    table: Table<AxisInfo>,
    raw: Seq<Option<i64>>,
    at: int,
    axis: char,
) -> bool {
    raw[at] is Some && table.order()[at].len() > 0 && table.order()[at].last() == axis
}

/// Nothing was refilled for the poll.
pub open spec fn nothing_refilled<E>(input: PollInput<E>) -> bool {
    match input {
        PollInput::Sysfs { .. } => false,
        PollInput::Buffer { refilled, .. } => !refilled,
    }
}

/// The mount matrix turns every event of either sensor: the coefficients of roll, pitch and yaw are
/// its rows, whatever the matrix is. All three take the same readings, and the event carries the
/// time of the poll.
pub proof fn law_every_event_is_rotated<E>(
    driver: Driver,
    input: PollInput<E>,
    timestamp: u64,
    i: int,
)
    requires
        driver.polled(input, timestamp) is Ok,
        0 <= i < driver.polled(input, timestamp)->Ok_0.len(),
    ensures
        ({
            let event = driver.polled(input, timestamp)->Ok_0[i];
            let data = data_of(event);
            let matrix = driver.mount_matrix;
            &&& (data.roll.mx, data.roll.my, data.roll.mz) == matrix.x
            &&& (data.pitch.mx, data.pitch.my, data.pitch.mz) == matrix.y
            &&& (data.yaw.mx, data.yaw.my, data.yaw.mz) == matrix.z
            &&& forall|axis: char| #[trigger]
                reading_along(data.roll, axis) == reading_along(data.pitch, axis)
                    && reading_along(data.roll, axis) == reading_along(data.yaw, axis)
            &&& time_of(event) == timestamp
        }),
{
}

/// The reading for an axis is that of the last channel that measures it.
proof fn lemma_axis_reading(table: Table<AxisInfo>, raw: Seq<Option<i64>>, axis: char, at: int)
    requires
        0 <= at < raw.len(),
        measures(table, raw, at, axis),
        forall|j: int| at < j < raw.len() ==> !measures(table, raw, j, axis),
    ensures
        ({
            let info = table@[table.order()[at]];
            &&& driver::axis_reading(table, raw, axis) matches Some(reading)
            &&& reading.scale == info.scale
            &&& reading.count == (raw[at]->0 + info.offset) as i64
        }),
    decreases raw.len(),
{
    if at < raw.len() - 1 {
        let shorter = raw.drop_last();
        assert(!measures(table, raw, raw.len() - 1, axis));
        assert forall|j: int| at < j < shorter.len() implies !measures(table, shorter, j, axis) by {
            assert(!measures(table, raw, j, axis));
        }
        lemma_axis_reading(table, shorter, axis, at);
    }
}

/// An axis that no channel measures has no reading.
proof fn lemma_axis_without_channel(table: Table<AxisInfo>, raw: Seq<Option<i64>>, axis: char)
    requires
        forall|j: int| 0 <= j < raw.len() ==> !measures(table, raw, j, axis),
    ensures
        driver::axis_reading(table, raw, axis) is None,
    decreases raw.len(),
{
    if raw.len() > 0 {
        let shorter = raw.drop_last();
        assert(!measures(table, raw, raw.len() - 1, axis));
        assert forall|j: int| 0 <= j < shorter.len() implies !measures(table, shorter, j, axis) by {
            assert(!measures(table, raw, j, axis));
        }
        lemma_axis_without_channel(table, shorter, axis);
    }
}

/// The readings of an event come from the raw values of its sensor.
proof fn lemma_readings_of_event<E>(driver: Driver, input: PollInput<E>, timestamp: u64, i: int)
    requires
        driver.polled(input, timestamp) is Ok,
        0 <= i < driver.polled(input, timestamp)->Ok_0.len(),
    ensures
        ({
            let event = driver.polled(input, timestamp)->Ok_0[i];
            let table = channels_behind(driver, event);
            let raw = raw_values(input, event is Gyro);
            &&& data_of(event).roll.x == driver::axis_reading(table, raw, 'x')
            &&& data_of(event).roll.y == driver::axis_reading(table, raw, 'y')
            &&& data_of(event).roll.z == driver::axis_reading(table, raw, 'z')
        }),
{
    match input {
        PollInput::Sysfs { accel, gyro } => {
            assert(driver::values_read(accel@) =~= raw_values(input, false));
            assert(driver::values_read(gyro@) =~= raw_values(input, true));
        },
        PollInput::Buffer { .. } => {},
    }
}

/// A reading is the raw value of a channel of the same sensor, with the offset of that channel
/// added, and the scale of that channel beside it. Where several channels measure one axis, the
/// last of them counts.
pub proof fn law_reading_is_raw_plus_offset<E>(
    driver: Driver,
    input: PollInput<E>,
    timestamp: u64,
    i: int,
    at: int,
    axis: char,
)
    requires
        driver.polled(input, timestamp) is Ok,
        0 <= i < driver.polled(input, timestamp)->Ok_0.len(),
        axis == 'x' || axis == 'y' || axis == 'z',
        ({
            let event = driver.polled(input, timestamp)->Ok_0[i];
            let table = channels_behind(driver, event);
            let raw = raw_values(input, event is Gyro);
            &&& 0 <= at < raw.len()
            &&& measures(table, raw, at, axis)
            &&& forall|j: int| at < j < raw.len() ==> !measures(table, raw, j, axis)
            &&& i64::MIN <= raw[at]->0 + table@[table.order()[at]].offset <= i64::MAX
        }),
    ensures
        ({
            let event = driver.polled(input, timestamp)->Ok_0[i];
            let table = channels_behind(driver, event);
            let raw = raw_values(input, event is Gyro);
            let info = table@[table.order()[at]];
            &&& reading_along(data_of(event).roll, axis) matches Some(reading)
            &&& reading.count == raw[at]->0 + info.offset
            &&& reading.scale == info.scale
        }),
{
    let event = driver.polled(input, timestamp)->Ok_0[i];
    lemma_readings_of_event(driver, input, timestamp, i);
    lemma_axis_reading(channels_behind(driver, event), raw_values(input, event is Gyro), axis, at);
}

/// An axis that no channel of the sensor measures has no reading.
pub proof fn law_axis_without_channel_has_no_reading<E>(
    driver: Driver,
    input: PollInput<E>,
    timestamp: u64,
    i: int,
    axis: char,
)
    requires
        driver.polled(input, timestamp) is Ok,
        0 <= i < driver.polled(input, timestamp)->Ok_0.len(),
        axis == 'x' || axis == 'y' || axis == 'z',
        ({
            let event = driver.polled(input, timestamp)->Ok_0[i];
            let table = channels_behind(driver, event);
            let raw = raw_values(input, event is Gyro);
            forall|j: int| 0 <= j < raw.len() ==> !measures(table, raw, j, axis)
        }),
    ensures
        reading_along(data_of(driver.polled(input, timestamp)->Ok_0[i]).roll, axis) is None,
{
    let event = driver.polled(input, timestamp)->Ok_0[i];
    lemma_readings_of_event(driver, input, timestamp, i);
    lemma_axis_without_channel(
        channels_behind(driver, event),
        raw_values(input, event is Gyro),
        axis,
    );
}

/// A sensor gives an event exactly if it has a channel and its capability is not filtered, unless a
/// buffer could not be refilled. The accelerometer comes first.
pub proof fn law_sensors_that_give_events<E>(driver: Driver, input: PollInput<E>, timestamp: u64)
    requires
        driver.polled(input, timestamp) is Ok,
    ensures
        ({
            let events = driver.polled(input, timestamp)->Ok_0;
            let filtered = driver.filtered_events@;
            let accel = driver.accel.order().len() > 0 && !filtered.contains(
                Capability::Accelerometer(Source::Center),
            ) && !nothing_refilled(input);
            let gyro = driver.gyro.order().len() > 0 && !filtered.contains(
                Capability::Gyroscope(Source::Center),
            ) && !nothing_refilled(input);
            &&& accel && gyro <==> events.len() == 2
            &&& !accel && !gyro <==> events.len() == 0
            &&& accel ==> events[0] is Accelerometer
            &&& gyro ==> events.last() is Gyro
        }),
{
}

/// Where no value could not be read there is no failure, and the first failure is the first value
/// that could not be read.
proof fn lemma_first_failure<E>(raw: Seq<Result<i64, E>>)
    ensures
        match driver::first_failure(raw) {
            Some(e) => exists|k: int|
                0 <= k < raw.len() && #[trigger] raw[k] == Err::<i64, E>(e) && forall|j: int|
                    0 <= j < k ==> raw[j] is Ok,
            None => forall|k: int| 0 <= k < raw.len() ==> #[trigger] raw[k] is Ok,
        },
    decreases raw.len(),
{
    if raw.len() > 0 {
        let rest = raw.skip(1);
        match raw[0] {
            Ok(_) => {
                lemma_first_failure(rest);
                assert forall|k: int| 0 < k < raw.len() implies #[trigger] raw[k] == rest[k - 1] by {}
                match driver::first_failure(rest) {
                    Some(e) => {
                        let k = choose|k: int|
                            0 <= k < rest.len() && #[trigger] rest[k] == Err::<i64, E>(e)
                                && forall|j: int| 0 <= j < k ==> rest[j] is Ok;
                        assert(raw[k + 1] == Err::<i64, E>(e));
                        assert forall|j: int| 0 <= j < k + 1 implies raw[j] is Ok by {
                            if j > 0 {
                                assert(rest[j - 1] is Ok);
                            }
                        }
                    },
                    None => {
                        assert forall|k: int| 0 <= k < raw.len() implies #[trigger] raw[k] is Ok by {
                            if k > 0 {
                                assert(rest[k - 1] is Ok);
                            }
                        }
                    },
                }
            },
            Err(e) => {
                assert(raw[0] == Err::<i64, E>(e));
            },
        }
    }
}

/// A poll of attributes fails exactly if a value could not be read of a sensor that is to give an
/// event, and then with the first such failure, that of the accelerometer before that of the
/// gyroscope.
pub proof fn law_poll_fails_with_the_first_failure<E>(
    driver: Driver,
    accel: Vec<Result<i64, E>>,
    gyro: Vec<Result<i64, E>>,
    timestamp: u64,
)
    ensures
        ({
            let result = driver.polled(PollInput::Sysfs { accel, gyro }, timestamp);
            let filtered = driver.filtered_events@;
            let reads_accel = driver.accel.order().len() > 0 && !filtered.contains(
                Capability::Accelerometer(Source::Center),
            );
            let reads_gyro = driver.gyro.order().len() > 0 && !filtered.contains(
                Capability::Gyroscope(Source::Center),
            );
            match result {
                Ok(_) => {
                    &&& reads_accel ==> forall|k: int|
                        0 <= k < accel@.len() ==> #[trigger] accel@[k] is Ok
                    &&& reads_gyro ==> forall|k: int|
                        0 <= k < gyro@.len() ==> #[trigger] gyro@[k] is Ok
                },
                Err(e) => {
                    ||| reads_accel && exists|k: int|
                        0 <= k < accel@.len() && #[trigger] accel@[k] == Err::<i64, E>(e)
                            && forall|j: int| 0 <= j < k ==> accel@[j] is Ok
                    ||| reads_gyro && (reads_accel ==> forall|k: int|
                        0 <= k < accel@.len() ==> #[trigger] accel@[k] is Ok) && exists|k: int|
                        0 <= k < gyro@.len() && #[trigger] gyro@[k] == Err::<i64, E>(e)
                            && forall|j: int| 0 <= j < k ==> gyro@[j] is Ok
                },
            }
        }),
{
    lemma_first_failure(accel@);
    lemma_first_failure(gyro@);
}

/// A poll of a buffer never fails.
pub proof fn law_buffer_poll_never_fails<E>(
    driver: Driver,
    refilled: bool,
    accel: Vec<Option<i64>>,
    gyro: Vec<Option<i64>>,
    timestamp: u64,
)
    ensures
        driver.polled(PollInput::<E>::Buffer { refilled, accel, gyro }, timestamp) is Ok,
{
}

/// The configured mount matrix goes before the one of the device. Without either the diagonal is one
/// and the rest is zero.
pub proof fn law_configured_matrix_goes_first(
    configured: MountMatrix,
    mounted: Option<MountMatrix>,
    given: MountMatrix,
)
    ensures
        driver::effective_matrix(Some(configured), mounted) == configured,
        driver::effective_matrix(None, Some(given)) == given,
        ({
            let one = Float { bits: 0x3ff0_0000_0000_0000 };
            let zero = Float { bits: 0 };
            let matrix = driver::effective_matrix(None, None);
            matrix.x == (one, zero, zero) && matrix.y == (zero, one, zero) && matrix.z == (
                zero,
                zero,
                one,
            )
        }),
{
}

/// A buffer that was opened is used as it was opened, unless it is ruled out; otherwise attributes
/// are read.
pub proof fn law_open_buffer_is_used(use_buffer: Option<bool>, buffer: OpenBuffer)
    ensures
        use_buffer == Some(false) ==> driver::effective_mode(use_buffer, Some(buffer))
            == ReadMode::Sysfs,
        use_buffer != Some(false) ==> driver::effective_mode(use_buffer, Some(buffer)) == (
        ReadMode::Buffer { poll_fd: buffer.poll_fd, storage_bits: buffer.storage_bits }),
        driver::effective_mode(use_buffer, None) == ReadMode::Sysfs,
{
}

/// A module counts as loaded exactly if a line starts with its name and all lines before that one
/// could be read.
pub proof fn law_loaded_module_is_listed<E>(lines: Seq<Result<String, E>>, name: Seq<char>)
    ensures
        match driver::listed_in(lines, name) {
            Ok(true) => exists|k: int|
                0 <= k < lines.len() && (#[trigger] lines[k] matches Ok(line) && name.is_prefix_of(
                    line@,
                )) && forall|j: int| 0 <= j < k ==> lines[j] is Ok,
            Ok(false) => forall|k: int|
                0 <= k < lines.len() ==> (#[trigger] lines[k] matches Ok(line)
                    && !name.is_prefix_of(line@)),
            Err(e) => exists|k: int|
                0 <= k < lines.len() && #[trigger] lines[k] == Err::<String, E>(e) && forall|j: int|
                    0 <= j < k ==> (#[trigger] lines[j] matches Ok(line) && !name.is_prefix_of(line@)),
        },
    decreases lines.len(),
{
    if lines.len() > 0 {
        let rest = lines.skip(1);
        assert forall|k: int| 0 < k < lines.len() implies #[trigger] lines[k] == rest[k - 1] by {}
        let first = lines[0];
        let decided = match first {
            Ok(line) => name.is_prefix_of(line@),
            Err(_) => true,
        };
        if decided {
            assert(lines[0] == first);
        } else {
            law_loaded_module_is_listed(rest, name);
            match driver::listed_in(rest, name) {
                Ok(true) => {
                    let k = choose|k: int|
                        0 <= k < rest.len() && (#[trigger] rest[k] matches Ok(line)
                            && name.is_prefix_of(line@)) && forall|j: int|
                            0 <= j < k ==> rest[j] is Ok;
                    assert(lines[k + 1] == rest[k]);
                    assert forall|j: int| 0 <= j < k + 1 implies lines[j] is Ok by {
                        if j > 0 {
                            assert(rest[j - 1] is Ok);
                        }
                    }
                },
                Ok(false) => {
                    assert forall|k: int| 0 <= k < lines.len() implies (
                    #[trigger] lines[k] matches Ok(line) && !name.is_prefix_of(line@)) by {
                        if k > 0 {
                            assert(rest[k - 1] is Ok);
                        }
                    }
                },
                Err(e) => {
                    let k = choose|k: int|
                        0 <= k < rest.len() && #[trigger] rest[k] == Err::<String, E>(e)
                            && forall|j: int|
                            0 <= j < k ==> (#[trigger] rest[j] matches Ok(line) && !name.is_prefix_of(line@));
                    assert(lines[k + 1] == rest[k]);
                    assert forall|j: int| 0 <= j < k + 1 implies (#[trigger] lines[j] matches Ok(line)
                        && !name.is_prefix_of(line@)) by {
                        if j > 0 {
                            assert(rest[j - 1] is Ok);
                        }
                    }
                },
            }
        }
    }
}

/// The default filter names both sensors where the module of the Legion Go is loaded, and nothing
/// otherwise.
pub proof fn law_default_filter(capability: Capability)
    ensures
        driver::LENOVO_GO_MODULE@ == "hid_lenovo_go"@,
        driver::default_filter(true).contains(capability) <==> capability
            == Capability::Accelerometer(Source::Center) || capability == Capability::Gyroscope(
            Source::Center,
        ),
        !driver::default_filter(false).contains(capability),
{
}

/// The places to enable are those of the channels that can be part of a scan, all of them, in
/// ascending order and each once.
pub proof fn law_scan_channels_are_enabled(scan: Seq<bool>)
    requires
        scan.len() <= usize::MAX,
    ensures
        forall|i: usize| #[trigger]
            buffer::scan_places(scan).contains(i) <==> 0 <= i < scan.len() && scan[i as int],
        forall|a: int, b: int|
            0 <= a < b < buffer::scan_places(scan).len() ==> buffer::scan_places(scan)[a]
                < buffer::scan_places(scan)[b],
    decreases scan.len(),
{
    if scan.len() > 0 {
        let shorter = scan.drop_last();
        law_scan_channels_are_enabled(shorter);
        let before = buffer::scan_places(shorter);
        let after = buffer::scan_places(scan);
        let last = (scan.len() - 1) as usize;
        assert forall|a: int| 0 <= a < before.len() implies before[a] < last by {
            assert(before.contains(before[a]));
        }
        assert forall|i: usize| #[trigger]
            after.contains(i) <==> 0 <= i < scan.len() && scan[i as int] by {
            if after.contains(i) {
                let at = choose|at: int| 0 <= at < after.len() && after[at] == i;
                if at < before.len() {
                    assert(before[at] == i);
                    assert(before.contains(i));
                }
            }
            if i < scan.len() && scan[i as int] {
                if i < last {
                    assert(shorter[i as int]);
                    assert(before.contains(i));
                    let at = choose|at: int| 0 <= at < before.len() && before[at] == i;
                    assert(after[at] == i);
                } else {
                    assert(after[before.len() as int] == last);
                }
            }
        }
    }
}

/// The scan elements that are disabled are those whose switch was read as a one, all of them, in
/// ascending order and each once. A switch is a file whose name ends with `_en`.
pub proof fn law_enabled_elements_are_disabled(entries: Seq<buffer::ScanEntry>)
    requires
        entries.len() <= usize::MAX,
    ensures
        forall|i: usize| #[trigger]
            buffer::switched_on(entries).contains(i) <==> 0 <= i < entries.len()
                && "_en"@.is_suffix_of(entries[i as int].name@) && (entries[i as int].content matches Some(
                content,
            ) && text::trimmed(content@) == "1"@),
        forall|a: int, b: int|
            0 <= a < b < buffer::switched_on(entries).len() ==> buffer::switched_on(entries)[a]
                < buffer::switched_on(entries)[b],
    decreases entries.len(),
{
    if entries.len() > 0 {
        let shorter = entries.drop_last();
        law_enabled_elements_are_disabled(shorter);
        let before = buffer::switched_on(shorter);
        let after = buffer::switched_on(entries);
        let last = (entries.len() - 1) as usize;
        assert forall|a: int| 0 <= a < before.len() implies before[a] < last by {
            assert(before.contains(before[a]));
        }
        assert forall|i: usize| #[trigger]
            after.contains(i) <==> 0 <= i < entries.len() && buffer::is_on(entries[i as int]) by {
            if after.contains(i) {
                let at = choose|at: int| 0 <= at < after.len() && after[at] == i;
                if at < before.len() {
                    assert(before[at] == i);
                    assert(before.contains(i));
                    assert(shorter[i as int] == entries[i as int]);
                }
            }
            if i < entries.len() && buffer::is_on(entries[i as int]) {
                if i < last {
                    assert(shorter[i as int] == entries[i as int]);
                    assert(before.contains(i));
                    let at = choose|at: int| 0 <= at < before.len() && before[at] == i;
                    assert(after[at] == i);
                } else {
                    assert(after[before.len() as int] == last);
                }
            }
        }
    }
}

/// The sample type that is looked at first and gives a size gives it for the device; where none
/// does, samples have 32 bits.
pub proof fn law_first_sample_type_decides(kinds: Seq<Option<String>>, at: int)
    requires
        0 <= at <= kinds.len(),
        forall|j: int|
            0 <= j < at ==> (#[trigger] kinds[j] matches Some(kind) ==> buffer::storage_bits(
                kind@,
            ) is None),
        at < kinds.len() ==> (kinds[at] matches Some(kind) && buffer::storage_bits(kind@) is Some),
    ensures
        at < kinds.len() ==> Some(buffer::detected_bits(kinds)) == buffer::storage_bits(
            kinds[at]->0@,
        ),
        at == kinds.len() ==> buffer::detected_bits(kinds) == 32,
    decreases at,
{
    if at > 0 {
        let rest = kinds.skip(1);
        assert(kinds[0] matches Some(kind) ==> buffer::storage_bits(kind@) is None);
        assert forall|j: int| 0 <= j < at - 1 implies (#[trigger] rest[j] matches Some(kind)
            ==> buffer::storage_bits(kind@) is None) by {
            assert(rest[j] == kinds[j + 1]);
        }
        law_first_sample_type_decides(rest, at - 1);
    }
}

/// The path that an action is about.
pub open spec fn path_of(action: buffer::Cleanup) -> Seq<char> {
    match action {
        buffer::Cleanup::Read(path) => path,
        buffer::Cleanup::Write { path, .. } => path,
        buffer::Cleanup::List(path) => path,
        buffer::Cleanup::Finished => Seq::empty(),
    }
}

/// A cleanup stays with its device: every file that it reads or writes and the directory that it
/// lists are below that of the device, and what it does to two devices differs.
pub proof fn law_cleanup_stays_with_the_device(
    step: buffer::CleanupStep,
    device_id: Seq<char>,
    other: Seq<char>,
)
    requires
        step != buffer::CleanupStep::Done,
    ensures
        ("/sys/bus/iio/devices/"@ + device_id).is_prefix_of(path_of(step.to_do(device_id))),
        device_id != other ==> step.to_do(device_id) != step.to_do(other),
{
    let dir = "/sys/bus/iio/devices/"@;
    let tail = match step {
        buffer::CleanupStep::CheckBuffer | buffer::CleanupStep::DisableBuffer => "/buffer/enable"@,
        buffer::CleanupStep::CheckTrigger
        | buffer::CleanupStep::UnbindTrigger => "/trigger/current_trigger"@,
        _ => "/scan_elements"@,
    };
    let path = path_of(step.to_do(device_id));
    assert(path =~= dir + device_id + tail);
    assert(path.take((dir + device_id).len() as int) =~= dir + device_id);
    if step.to_do(device_id) == step.to_do(other) {
        assert(path.subrange(dir.len() as int, path.len() - tail.len()) =~= device_id);
        assert(path.subrange(dir.len() as int, path.len() - tail.len()) =~= other);
    }
}

/// What the steps of a cleanup do: the switch of the buffer is read and set to zero, the name of the
/// trigger is read and emptied, and the scan elements are listed.
pub proof fn law_what_a_cleanup_does(device_id: Seq<char>)
    ensures
        ({
            let enable = "/sys/bus/iio/devices/"@ + device_id + "/buffer/enable"@;
            let bound = "/sys/bus/iio/devices/"@ + device_id + "/trigger/current_trigger"@;
            let elements = "/sys/bus/iio/devices/"@ + device_id + "/scan_elements"@;
            &&& buffer::CleanupStep::CheckBuffer.to_do(device_id) == buffer::Cleanup::Read(enable)
            &&& buffer::CleanupStep::DisableBuffer.to_do(device_id) == (buffer::Cleanup::Write {
                path: enable,
                text: "0"@,
            })
            &&& buffer::CleanupStep::CheckTrigger.to_do(device_id) == buffer::Cleanup::Read(bound)
            &&& buffer::CleanupStep::UnbindTrigger.to_do(device_id) == (buffer::Cleanup::Write {
                path: bound,
                text: ""@,
            })
            &&& buffer::CleanupStep::ListScanElements.to_do(device_id) == buffer::Cleanup::List(
                elements,
            )
            &&& buffer::scan_dir(device_id) == elements
        }),
{
}

/// A file says that something is enabled exactly if it could be read and holds a one, apart from
/// white space, and names something exactly if it holds more than white space.
pub proof fn law_what_files_say(content: Seq<char>)
    ensures
        buffer::is_enabled(Some(content)) <==> text::trimmed(content) == "1"@,
        buffer::is_named(Some(content)) <==> text::trimmed(content) != Seq::<char>::empty(),
        !buffer::is_enabled(None),
        !buffer::is_named(None),
{
    if text::trimmed(content).len() == 0 {
        assert(text::trimmed(content) =~= Seq::<char>::empty());
    }
}

/// The device in place `at` is a trigger whose name has the property.
pub open spec fn trigger_with(
    devices: Seq<Option<super::trigger::Candidate>>,
    at: int,
    property: spec_fn(Seq<char>) -> bool,
) -> bool {
    devices[at] matches Some(candidate) && candidate.is_trigger && property(
        match candidate.name {
            Some(name) => name@,
            None => Seq::empty(),
        },
    )
}

/// The trigger that is chosen is one of the triggers. One with `hrtimer` in its name goes before all
/// others, one whose name starts with that of the sensor goes before the rest, and among equals the
/// first is taken, so that there is one choice only.
pub proof fn law_choice_of_the_trigger(
    devices: Seq<Option<super::trigger::Candidate>>,
    sensor: Seq<char>,
    at: int,
    other: int,
)
    requires
        super::trigger::is_choice(devices, sensor, at),
        0 <= other < devices.len(),
    ensures
        ({
            let timer = |name: Seq<char>| text::occurs(name, "hrtimer"@);
            let matched = |name: Seq<char>| sensor.is_prefix_of(name);
            let any = |name: Seq<char>| true;
            &&& 0 <= at < devices.len()
            &&& trigger_with(devices, at, any)
            &&& trigger_with(devices, other, timer) ==> trigger_with(devices, at, timer) && at
                <= other
            &&& trigger_with(devices, other, matched) ==> trigger_with(devices, at, timer) || (
            trigger_with(devices, at, matched) && at <= other)
            &&& trigger_with(devices, other, any) ==> trigger_with(devices, at, timer)
                || trigger_with(devices, at, matched) || at <= other
        }),
        super::trigger::is_choice(devices, sensor, other) ==> other == at,
{
    let timer = |i: int| super::trigger::timer_at(devices, i);
    let matched = |i: int| super::trigger::matched_at(devices, i, sensor);
    let any = |i: int| super::trigger::trigger_at(devices, i);
    assert(timer(other) == super::trigger::timer_at(devices, other));
    assert(matched(other) == super::trigger::matched_at(devices, other, sensor));
    assert(any(other) == super::trigger::trigger_at(devices, other));
    assert(timer(at) == super::trigger::timer_at(devices, at));
    assert(matched(at) == super::trigger::matched_at(devices, at, sensor));
    assert(any(at) == super::trigger::trigger_at(devices, at));
}

/// No trigger is found only where there is none.
pub proof fn law_no_trigger_is_overlooked(
    devices: Seq<Option<super::trigger::Candidate>>,
    other: int,
)
    requires
        super::trigger::nowhere(devices.len(), |i: int| super::trigger::trigger_at(devices, i)),
        0 <= other < devices.len(),
    ensures
        !trigger_with(devices, other, |name: Seq<char>| true),
{
    let any = |i: int| super::trigger::trigger_at(devices, i);
    assert(any(other) == super::trigger::trigger_at(devices, other));
}

/// The rates that are available are those of the first channel that lists any, or else those that
/// the device lists, or else none.
pub proof fn law_first_list_of_rates_counts(
    lists: Seq<Option<Vec<Float>>>,
    device: Option<Vec<Float>>,
    at: int,
)
    requires
        0 <= at <= lists.len(),
        forall|j: int|
            0 <= j < at ==> (#[trigger] lists[j] matches Some(rates) ==> rates@.len() == 0),
        at < lists.len() ==> (lists[at] matches Some(rates) && rates@.len() > 0),
    ensures
        at < lists.len() ==> rate::first_usable(lists, device) == lists[at]->0@,
        at == lists.len() && device is Some ==> rate::first_usable(lists, device) == device->0@,
        at == lists.len() && device is None ==> rate::first_usable(lists, device).len() == 0,
    decreases at,
{
    if at > 0 {
        let rest = lists.skip(1);
        assert(lists[0] matches Some(rates) ==> rates@.len() == 0);
        assert forall|j: int| 0 <= j < at - 1 implies (#[trigger] rest[j] matches Some(rates)
            ==> rates@.len() == 0) by {
            assert(rest[j] == lists[j + 1]);
        }
        law_first_list_of_rates_counts(rest, device, at - 1);
    }
}

/// The configured rate is set whatever is available. Otherwise it is one of the available rates,
/// and no available rate ranks above it. Where none is available it is 200.
pub proof fn law_rate_that_is_set(
    configured: Option<Float>,
    available: Seq<Float>,
    rate: Float,
    i: int,
)
    requires
        rate::is_rate_to_set(configured, available, rate),
    ensures
        configured is Some ==> rate == configured->0,
        configured is None && available.len() == 0 ==> rate.bits == 0x4069_0000_0000_0000,
        configured is None && 0 <= i < available.len() && !available[i].is_nan() ==> {
            &&& available[i].rank() <= rate.rank()
            &&& available.contains(rate) || rate.bits == 0xfff0_0000_0000_0000
        },
{
}

/// Once a write succeeded the rate is set: nothing more is written, to no channel and not to the
/// device. After the device nothing is left to try.
pub proof fn law_rate_is_set_once(step: RateStep, channels: nat, written: bool)
    ensures
        written ==> step.after(channels, written) == RateStep::Done,
        step == RateStep::Device ==> step.after(channels, written) == RateStep::Done,
        step == RateStep::Done ==> step.after(channels, written) == RateStep::Done,
{
}

/// A rate is set for a sensor exactly if it has a channel, and for no other kind of channel.
pub proof fn law_rates_are_set_where_there_are_channels(accel: nat, gyro: nat)
    ensures
        rate::sensors_with_channels(accel, gyro).contains(ChannelKind::Accel) <==> accel > 0,
        rate::sensors_with_channels(accel, gyro).contains(ChannelKind::AnglVel) <==> gyro > 0,
        !rate::sensors_with_channels(accel, gyro).contains(ChannelKind::Other),
        rate::sensors_with_channels(accel, gyro).no_duplicates(),
        accel > 0 ==> rate::sensors_with_channels(accel, gyro)[0] == ChannelKind::Accel,
{
    let list = rate::sensors_with_channels(accel, gyro);
    if accel > 0 {
        assert(list[0] == ChannelKind::Accel);
    }
    if gyro > 0 {
        assert(list[list.len() - 1] == ChannelKind::AnglVel);
    }
}

/// What could be read of a channel is kept. What could not be read is 0 for the offset, 4 for the
/// rates and 1 for the scales.
pub proof fn law_channel_keeps_what_was_read(channel: FoundChannel)
    ensures
        ({
            let axis = channel.axis();
            let one = Float { bits: 0x3ff0_0000_0000_0000 };
            let four = Float { bits: 0x4010_0000_0000_0000 };
            &&& channel.offset matches Some(offset) ==> axis.offset == offset
            &&& channel.offset is None ==> axis.offset == 0
            &&& channel.sample_rate matches Some(rate) ==> axis.sample_rate == rate
            &&& channel.sample_rate is None ==> axis.sample_rate == four
            &&& channel.scale matches Some(scale) ==> axis.scale == scale
            &&& channel.scale is None ==> axis.scale == one
            &&& channel.sample_rates_avail matches Some(list) ==> axis.sample_rates_avail == list@
            &&& channel.sample_rates_avail is None ==> axis.sample_rates_avail == seq![four]
            &&& channel.scales_avail matches Some(list) ==> axis.scales_avail == list@
            &&& channel.scales_avail is None ==> axis.scales_avail == seq![one]
        }),
{
}

/// The channel in place `i` is of that kind and has that id.
pub open spec fn is_channel(
    found: Seq<FoundChannel>,
    i: int,
    kind: ChannelKind,
    id: Seq<char>,
) -> bool {
    found[i].kind == kind && (found[i].id matches Some(name) && name@ == id)
}

/// An id is known exactly if a channel of that kind was found with it, and what is known of it is
/// what was read of the last such channel. The order lists the same ids.
pub proof fn law_channels_of_a_kind(found: Seq<FoundChannel>, kind: ChannelKind, id: Seq<char>)
    ensures
        info::channels_of(found, kind).contains_key(id) <==> exists|i: int|
            0 <= i < found.len() && is_channel(found, i, kind, id),
        info::channel_order(found, kind).contains(id) <==> info::channels_of(
            found,
            kind,
        ).contains_key(id),
        forall|i: int|
            0 <= i < found.len() && #[trigger] is_channel(found, i, kind, id) && (forall|j: int|
                i < j < found.len() ==> !is_channel(found, j, kind, id)) ==> info::channels_of(
                found,
                kind,
            )[id] == found[i].axis(),
    decreases found.len(),
{
    if found.len() > 0 {
        let shorter = found.drop_last();
        let last = found.len() - 1;
        law_channels_of_a_kind(shorter, kind, id);
        assert(forall|i: int|
            0 <= i < last ==> #[trigger] is_channel(found, i, kind, id) == is_channel(
                shorter,
                i,
                kind,
                id,
            ));
        let before = info::channel_order(shorter, kind);
        let after = info::channel_order(found, kind);
        if info::channels_of(shorter, kind).contains_key(id) {
            let i = choose|i: int| 0 <= i < shorter.len() && is_channel(shorter, i, kind, id);
            assert(is_channel(found, i, kind, id));
        }
        if before.contains(id) {
            let at = choose|at: int| 0 <= at < before.len() && before[at] == id;
            assert(after[at] == id);
        }
        if is_channel(found, last, kind, id) && !before.contains(id) {
            assert(after[before.len() as int] == id);
        }
        if after.contains(id) && !before.contains(id) {
            let at = choose|at: int| 0 <= at < after.len() && after[at] == id;
            assert(at == before.len()) by {
                if at < before.len() {
                    assert(before[at] == id);
                }
            }
            assert(is_channel(found, last, kind, id));
        }
        assert forall|i: int|
            0 <= i < found.len() && #[trigger] is_channel(found, i, kind, id) && (forall|j: int|
                i < j < found.len() ==> !is_channel(found, j, kind, id)) implies info::channels_of(
            found,
            kind,
        )[id] == found[i].axis() by {
            if i < last {
                assert(!is_channel(found, last, kind, id));
                assert(is_channel(shorter, i, kind, id));
                assert forall|j: int| i < j < shorter.len() implies !is_channel(
                    shorter,
                    j,
                    kind,
                    id,
                ) by {
                    assert(!is_channel(found, j, kind, id));
                }
            }
        }
        if exists|i: int| 0 <= i < found.len() && is_channel(found, i, kind, id) {
            let i = choose|i: int| 0 <= i < found.len() && is_channel(found, i, kind, id);
            if i < last {
                assert(is_channel(shorter, i, kind, id));
            }
        }
    }
}

/// A slow poll is one that takes longer than a second, and it is followed by three seconds of rest.
pub proof fn law_length_of_pauses()
    ensures
        driver::POLL_SLOW_THRESHOLD == 1000,
        driver::POLL_BACKOFF_SLEEP == 3000,
        buffer::DEFAULT_BUFFER_SAMPLES == 1,
{
}

} // verus!
