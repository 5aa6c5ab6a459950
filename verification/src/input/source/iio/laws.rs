//! What the sources of inertial sensors do, stated of their inputs and results.

use vstd::prelude::*;

use crate::drivers::iio_imu::driver::{Driver, PollInput};
use crate::drivers::iio_imu::event::{AxisData, Event};
use crate::drivers::iio_imu::info::MountMatrix;
use crate::drivers::iio_imu::laws;
use crate::input::capability::{Capability, CapabilitySet, Source};
use crate::input::event::{Conversion, InputValue, NativeEvent};
use crate::udev::device::UdevDevice;

use super::accel_gyro_3d;
use super::accel_gyro_3d::AccelGyro3dImu;
use super::bmi_imu;
use super::bmi_imu::BmiImu;
use super::imu;
use super::imu::{DriverRequest, IioConfig, Imu};

verus! {

/// The value holds roll, pitch and yaw as x, y and z, each with that conversion.
pub open spec fn carries(value: InputValue, data: AxisData, conversion: Conversion) -> bool {
    &&& value matches InputValue::Vector3 { x: Some(x), y: Some(y), z: Some(z) }
    &&& x.value == data.roll && x.conversion == conversion
    &&& y.value == data.pitch && y.conversion == conversion
    &&& z.value == data.yaw && z.conversion == conversion
}

/// The event is that of the sensor hub: accelerations are in units of 6125 / 10000000, rotations in
/// units of 625 / 10000 degrees.
pub open spec fn is_hub_event(native: NativeEvent, event: Event) -> bool {
    match event {
        Event::Accelerometer(data, _) => {
            &&& native.capability == Capability::Accelerometer(Source::Center)
            &&& carries(
                native.value,
                data,
                Conversion::Units { numerator: 6125, denominator: 10_000_000 },
            )
        },
        Event::Gyro(data, _) => {
            &&& native.capability == Capability::Gyroscope(Source::Center)
            &&& carries(
                native.value,
                data,
                Conversion::DegreeUnits { numerator: 625, denominator: 10_000 },
            )
        },
    }
}

/// The event is that of a Bosch sensor: accelerations stay as they are, rotations are in degrees
/// times twelve.
pub open spec fn is_bmi_event(native: NativeEvent, event: Event) -> bool {
    match event {
        Event::Accelerometer(data, _) => {
            &&& native.capability == Capability::Accelerometer(Source::Center)
            &&& carries(native.value, data, Conversion::Unchanged)
        },
        Event::Gyro(data, _) => {
            &&& native.capability == Capability::Gyroscope(Source::Center)
            &&& carries(native.value, data, Conversion::DegreesTimes { times: 12 })
        },
    }
}

/// The rows of a configured matrix become the rows of the mount matrix, and the configured rate is
/// the rate. The device is named as udev names it.
pub proof fn law_request_for_a_driver(
    device: UdevDevice,
    config: Option<IioConfig>,
    request: DriverRequest,
)
    requires
        call_ensures(imu::driver_request, (&device, &config), request),
    ensures
        request.id@ == device.sysname@,
        request.name@ == device.name@,
        config is None ==> request.mount_matrix is None && request.sample_rate is None,
        config matches Some(config) ==> {
            &&& request.sample_rate == config.sample_rate
            &&& config.mount_matrix is None ==> request.mount_matrix is None
            &&& config.mount_matrix matches Some(rows) ==> {
                &&& request.mount_matrix matches Some(matrix)
                &&& matrix.x == (rows.x@[0], rows.x@[1], rows.x@[2])
                &&& matrix.y == (rows.y@[0], rows.y@[1], rows.y@[2])
                &&& matrix.z == (rows.z@[0], rows.z@[1], rows.z@[2])
            }
        },
{
}

/// Roll, pitch and yaw become x, y and z, and all get the conversion.
pub proof fn law_converted_axes(data: AxisData, conversion: Conversion, value: InputValue)
    requires
        call_ensures(imu::convert, (data, conversion), value),
    ensures
        carries(value, data, conversion),
{
}

/// Events of the sensor hub are translated one by one, in the units of the Steam Deck.
pub proof fn law_translated_hub_events(
    events: Vec<Event>,
    native: Vec<NativeEvent>,
    i: int,
    event: Event,
    single: NativeEvent,
)
    requires
        call_ensures(accel_gyro_3d::translate_events, (events,), native),
        call_ensures(accel_gyro_3d::translate_event, (event,), single),
    ensures
        is_hub_event(single, event),
        native@.len() == events@.len(),
        0 <= i < events@.len() ==> is_hub_event(native@[i], events@[i]),
{
}

/// Events of a Bosch sensor are translated one by one.
pub proof fn law_translated_bmi_events(
    events: Vec<Event>,
    native: Vec<NativeEvent>,
    i: int,
    event: Event,
    single: NativeEvent,
)
    requires
        call_ensures(bmi_imu::translate_events, (events,), native),
        call_ensures(bmi_imu::translate_event, (event,), single),
    ensures
        is_bmi_event(single, event),
        native@.len() == events@.len(),
        0 <= i < events@.len() ==> is_bmi_event(native@[i], events@[i]),
{
}

/// The coefficients of the three axes are the rows of the matrix.
pub open spec fn is_rotated_by(value: InputValue, matrix: MountMatrix) -> bool {
    &&& value matches InputValue::Vector3 { x: Some(x), y: Some(y), z: Some(z) }
    &&& (x.value.mx, x.value.my, x.value.mz) == matrix.x
    &&& (y.value.mx, y.value.my, y.value.mz) == matrix.y
    &&& (z.value.mx, z.value.my, z.value.mz) == matrix.z
}

/// A source gives the events of its driver, translated and turned by the mount matrix of the driver,
/// and without a driver none.
pub proof fn law_polled_hub<E>(
    source: AccelGyro3dImu,
    input: PollInput<E>,
    timestamp: u64,
    native: Vec<NativeEvent>,
    i: int,
)
    requires
        call_ensures(
            AccelGyro3dImu::poll::<E>,
            (&source, input, timestamp),
            Ok::<Vec<NativeEvent>, E>(native),
        ),
    ensures
        source.imu.driver is None ==> native@.len() == 0,
        source.imu.driver matches Some(device) ==> {
            &&& device.polled(input, timestamp) matches Ok(events)
            &&& native@.len() == events.len()
            &&& 0 <= i < events.len() ==> is_hub_event(native@[i], events[i]) && is_rotated_by(
                native@[i].value,
                device.mount_matrix,
            )
        },
{
    if let Some(device) = source.imu.driver {
        let events = device.polled(input, timestamp)->Ok_0;
        if 0 <= i < events.len() {
            laws::law_every_event_is_rotated(device, input, timestamp, i);
        }
    }
}

/// The same of a Bosch sensor.
pub proof fn law_polled_bmi<E>(
    source: BmiImu,
    input: PollInput<E>,
    timestamp: u64,
    native: Vec<NativeEvent>,
    i: int,
)
    requires
        call_ensures(
            BmiImu::poll::<E>,
            (&source, input, timestamp),
            Ok::<Vec<NativeEvent>, E>(native),
        ),
    ensures
        source.imu.driver is None ==> native@.len() == 0,
        source.imu.driver matches Some(device) ==> {
            &&& device.polled(input, timestamp) matches Ok(events)
            &&& native@.len() == events.len()
            &&& 0 <= i < events.len() ==> is_bmi_event(native@[i], events[i]) && is_rotated_by(
                native@[i].value,
                device.mount_matrix,
            )
        },
{
    if let Some(device) = source.imu.driver {
        let events = device.polled(input, timestamp)->Ok_0;
        if 0 <= i < events.len() {
            laws::law_every_event_is_rotated(device, input, timestamp, i);
        }
    }
}

/// A poll of a source fails exactly as that of its driver does.
pub proof fn law_failed_polls<E>(
    hub: AccelGyro3dImu,
    bmi: BmiImu,
    source: Imu,
    input: PollInput<E>,
    timestamp: u64,
    of_hub: Result<Vec<NativeEvent>, E>,
    of_bmi: Result<Vec<NativeEvent>, E>,
    of_source: Result<Vec<Event>, E>,
)
    requires
        call_ensures(AccelGyro3dImu::poll::<E>, (&hub, input, timestamp), of_hub),
        call_ensures(BmiImu::poll::<E>, (&bmi, input, timestamp), of_bmi),
        call_ensures(Imu::poll::<E>, (&source, input, timestamp), of_source),
    ensures
        of_hub matches Err(e) ==> (hub.imu.driver matches Some(device) && device.polled(
            input,
            timestamp,
        ) == Err::<Seq<Event>, E>(e)),
        of_bmi matches Err(e) ==> (bmi.imu.driver matches Some(device) && device.polled(
            input,
            timestamp,
        ) == Err::<Seq<Event>, E>(e)),
        of_source matches Err(e) ==> (source.driver matches Some(device) && device.polled(
            input,
            timestamp,
        ) == Err::<Seq<Event>, E>(e)),
        of_source matches Ok(events) ==> {
            &&& source.driver is None ==> events@.len() == 0
            &&& source.driver matches Some(device) ==> device.polled(input, timestamp) == Ok::<
                Seq<Event>,
                E,
            >(events@)
        },
{
}

/// A new source is made of its request and its driver, and filters nothing.
pub proof fn law_new_sources(
    request: DriverRequest,
    device: Driver,
    source: Imu,
    hub: AccelGyro3dImu,
    bmi: BmiImu,
    capability: Capability,
)
    requires
        call_ensures(Imu::new, (request, device), source),
        call_ensures(AccelGyro3dImu::new, (request, device), hub),
        call_ensures(BmiImu::new, (request, device), bmi),
    ensures
        is_made_of(source, request, device),
        is_made_of(hub.imu, request, device),
        is_made_of(bmi.imu, request, device),
        !source.event_filter@.contains(capability),
        !hub.imu.event_filter@.contains(capability),
        !bmi.imu.event_filter@.contains(capability),
{
}

/// The source has the driver and what it was requested with.
pub open spec fn is_made_of(source: Imu, request: DriverRequest, device: Driver) -> bool {
    &&& source.driver == Some(device)
    &&& source.device_id@ == request.id@
    &&& source.device_name@ == request.name@
    &&& source.mount_matrix == request.mount_matrix
    &&& source.sample_rate == request.sample_rate
}

/// The sensor hub announces exactly the sensors that its driver found, each once. A Bosch sensor
/// announces both.
pub proof fn law_announced_sensors(
    request: DriverRequest,
    device: Driver,
    hub: AccelGyro3dImu,
    of_hub: Vec<Capability>,
    bmi: BmiImu,
    of_bmi: Vec<Capability>,
    capability: Capability,
)
    requires
        call_ensures(AccelGyro3dImu::new, (request, device), hub),
        call_ensures(AccelGyro3dImu::get_capabilities, (&hub,), of_hub),
        call_ensures(BmiImu::get_capabilities, (&bmi,), of_bmi),
    ensures
        of_hub@.contains(capability) <==> {
            ||| capability == Capability::Accelerometer(Source::Center)
                && device.accel.order().len() > 0
            ||| capability == Capability::Gyroscope(Source::Center) && device.gyro.order().len() > 0
        },
        of_hub@.no_duplicates(),
        of_bmi@.contains(capability) <==> capability == Capability::Accelerometer(Source::Center)
            || capability == Capability::Gyroscope(Source::Center),
        of_bmi@.no_duplicates(),
{
    if device.accel.order().len() > 0 {
        assert(of_hub@[0] == Capability::Accelerometer(Source::Center));
    }
    if device.gyro.order().len() > 0 {
        assert(of_hub@[of_hub@.len() - 1] == Capability::Gyroscope(Source::Center));
    }
    assert(of_bmi@[0] == Capability::Accelerometer(Source::Center));
    assert(of_bmi@[1] == Capability::Gyroscope(Source::Center));
}

/// What a driver is made from stays.
pub open spec fn keeps_its_device(before: Imu, after: Imu) -> bool {
    &&& after.device_id@ == before.device_id@
    &&& after.device_name@ == before.device_name@
    &&& after.mount_matrix == before.mount_matrix
    &&& after.sample_rate == before.sample_rate
}

/// A driver is the same but for its filter.
pub open spec fn differs_by_filter(before: Driver, after: Driver) -> bool {
    &&& after.accel == before.accel
    &&& after.gyro == before.gyro
    &&& after.mount_matrix == before.mount_matrix
    &&& after.read_mode == before.read_mode
}

/// A suspend takes the driver away and leaves the filter and the rest.
pub open spec fn is_suspended(before: Imu, after: Imu) -> bool {
    &&& after.driver is None
    &&& after.event_filter@ == before.event_filter@
    &&& keeps_its_device(before, after)
}

/// A resume brings the driver that was made, with the filter that the source has, unless there was a
/// driver or none could be made.
pub open spec fn is_resumed(before: Imu, after: Imu, made: Option<Driver>) -> bool {
    &&& after.event_filter@ == before.event_filter@
    &&& keeps_its_device(before, after)
    &&& before.driver is None && made is Some ==> {
        &&& after.driver matches Some(device)
        &&& device.filtered_events@ == before.event_filter@
        &&& differs_by_filter(made->0, device)
    }
    &&& before.driver is Some || made is None ==> after.driver == before.driver
}

/// An update gives the filter to the source, and to its driver where there is one.
pub open spec fn is_updated(before: Imu, after: Imu, filter: Set<Capability>) -> bool {
    &&& after.event_filter@ == filter
    &&& keeps_its_device(before, after)
    &&& before.driver is None ==> after.driver is None
    &&& before.driver is Some ==> {
        &&& after.driver matches Some(device)
        &&& device.filtered_events@ == filter
        &&& differs_by_filter(before.driver->0, device)
    }
}

/// What a suspend does to a source.
pub proof fn law_suspend(source: &mut Imu)
    requires
        call_ensures(Imu::on_suspend, (source,), ()),
    ensures
        is_suspended(*old(source), *final(source)),
{
}

/// What a suspend does to a sensor hub.
pub proof fn law_hub_suspend(source: &mut AccelGyro3dImu)
    requires
        call_ensures(AccelGyro3dImu::on_suspend, (source,), ()),
    ensures
        is_suspended(old(source).imu, final(source).imu),
        final(source).capabilities == old(source).capabilities,
{
}

/// What a suspend does to a Bosch sensor.
pub proof fn law_bmi_suspend(source: &mut BmiImu)
    requires
        call_ensures(BmiImu::on_suspend, (source,), ()),
    ensures
        is_suspended(old(source).imu, final(source).imu),
{
}

/// What a resume does to a source.
pub proof fn law_resume(source: &mut Imu, made: Option<Driver>)
    requires
        old(source).wf(),
        call_ensures(Imu::on_resume, (source, made), ()),
    ensures
        is_resumed(*old(source), *final(source), made),
{
}

/// What a resume does to a sensor hub.
pub proof fn law_hub_resume(source: &mut AccelGyro3dImu, made: Option<Driver>)
    requires
        old(source).wf(),
        call_ensures(AccelGyro3dImu::on_resume, (source, made), ()),
    ensures
        is_resumed(old(source).imu, final(source).imu, made),
        final(source).capabilities == old(source).capabilities,
{
}

/// What a resume does to a Bosch sensor.
pub proof fn law_bmi_resume(source: &mut BmiImu, made: Option<Driver>)
    requires
        old(source).wf(),
        call_ensures(BmiImu::on_resume, (source, made), ()),
    ensures
        is_resumed(old(source).imu, final(source).imu, made),
{
}

/// What a new filter does to a source.
pub proof fn law_update(source: &mut Imu, events: CapabilitySet)
    requires
        call_ensures(Imu::update_event_filter, (source, events), ()),
    ensures
        is_updated(*old(source), *final(source), events@),
{
}

/// What a new filter does to a sensor hub.
pub proof fn law_hub_update(source: &mut AccelGyro3dImu, events: CapabilitySet)
    requires
        call_ensures(AccelGyro3dImu::update_event_filter, (source, events), ()),
    ensures
        is_updated(old(source).imu, final(source).imu, events@),
        final(source).capabilities == old(source).capabilities,
{
}

/// What a new filter does to a Bosch sensor.
pub proof fn law_bmi_update(source: &mut BmiImu, events: CapabilitySet)
    requires
        call_ensures(BmiImu::update_event_filter, (source, events), ()),
    ensures
        is_updated(old(source).imu, final(source).imu, events@),
{
}

/// A driver is requested after a resume exactly if there is none, with what the first one was made
/// from.
pub proof fn law_request_after_a_resume(source: Imu, request: Option<DriverRequest>)
    requires
        call_ensures(Imu::resume_request, (&source,), request),
    ensures
        request is Some <==> source.driver is None,
        request matches Some(request) ==> {
            &&& request.id@ == source.device_id@
            &&& request.name@ == source.device_name@
            &&& request.mount_matrix == source.mount_matrix
            &&& request.sample_rate == source.sample_rate
        },
{
}

/// The default filter holds both sensors where a line of the modules starts with `hid_lenovo_go`, and
/// nothing where none does.
pub open spec fn is_default_filter<E>(
    result: Result<CapabilitySet, E>,
    lines: Seq<Result<String, E>>,
    capability: Capability,
) -> bool {
    &&& result matches Ok(filter)
    &&& filter@.contains(capability) <==> (capability == Capability::Accelerometer(Source::Center)
        || capability == Capability::Gyroscope(Source::Center)) && exists|j: int|
        0 <= j < lines.len() && "hid_lenovo_go"@.is_prefix_of((#[trigger] lines[j])->Ok_0@)
}

/// Each source has the default filter of its driver, and without a driver filters nothing by default.
pub proof fn law_default_filters<E>(
    source: Imu,
    hub: AccelGyro3dImu,
    bmi: BmiImu,
    lines: Vec<Result<String, E>>,
    of_source: Result<CapabilitySet, E>,
    of_hub: Result<CapabilitySet, E>,
    of_bmi: Result<CapabilitySet, E>,
    capability: Capability,
)
    requires
        forall|j: int| 0 <= j < lines@.len() ==> #[trigger] lines@[j] is Ok,
        call_ensures(
            Imu::get_default_event_filter::<E>,
            (&source, Ok::<Vec<Result<String, E>>, E>(lines)),
            of_source,
        ),
        call_ensures(
            AccelGyro3dImu::get_default_event_filter::<E>,
            (&hub, Ok::<Vec<Result<String, E>>, E>(lines)),
            of_hub,
        ),
        call_ensures(
            BmiImu::get_default_event_filter::<E>,
            (&bmi, Ok::<Vec<Result<String, E>>, E>(lines)),
            of_bmi,
        ),
    ensures
        source.driver is Some ==> is_default_filter(of_source, lines@, capability),
        source.driver is None ==> (of_source matches Ok(filter) && !filter@.contains(capability)),
        hub.imu.driver is Some ==> is_default_filter(of_hub, lines@, capability),
        hub.imu.driver is None ==> (of_hub matches Ok(filter) && !filter@.contains(capability)),
        bmi.imu.driver is Some ==> is_default_filter(of_bmi, lines@, capability),
        bmi.imu.driver is None ==> (of_bmi matches Ok(filter) && !filter@.contains(capability)),
{
    laws::law_loaded_module_is_listed(lines@, "hid_lenovo_go"@);
    laws::law_default_filter(capability);
    let listed = crate::drivers::iio_imu::driver::listed_in(lines@, "hid_lenovo_go"@);
    if listed == Ok::<bool, E>(true) {
        let k = choose|k: int|
            0 <= k < lines@.len() && (#[trigger] lines@[k] matches Ok(line)
                && "hid_lenovo_go"@.is_prefix_of(line@)) && forall|j: int|
                0 <= j < k ==> lines@[j] is Ok;
        assert("hid_lenovo_go"@.is_prefix_of(lines@[k]->Ok_0@));
    }
}

/// A default filter that could not be decided is told with the reason. A driver is made three seconds
/// after a resume.
pub proof fn law_messages_and_pauses(detail: &str, message: String)
    requires
        call_ensures(imu::filter_error, (detail,), message),
    ensures
        message@ == "Failed to get default event filter: "@ + detail@,
        imu::RESUME_RECOVER_DELAY == 3000,
{
}

} // verus!
