//! Bosch inertial sensors as sources of events.

use vstd::prelude::*;

use crate::drivers::iio_imu::driver;
use crate::drivers::iio_imu::driver::{Driver, PollInput};
use crate::drivers::iio_imu::event::Event;
use crate::input::capability::{Capability, CapabilitySet, Source};
use crate::input::event::{Conversion, NativeEvent};

use super::imu;
use super::imu::{Change, DriverRequest, Imu};

verus! {

/// Rotations are counted in twelfths of a degree per second.
pub const GYRO_TIMES: u32 = 12;

pub struct BmiImu {
    pub imu: Imu,
}

/// The capabilities of every such sensor.
pub open spec fn sensor_capabilities() -> Seq<Capability> {
    seq![Capability::Accelerometer(Source::Center), Capability::Gyroscope(Source::Center)]
}

/// The event that an event of the sensor stands for.
pub open spec fn native_event(event: Event) -> NativeEvent {
    match event {
        Event::Accelerometer(data, _) => NativeEvent {
            capability: Capability::Accelerometer(Source::Center),
            value: imu::converted(data, Conversion::Unchanged),
        },
        Event::Gyro(data, _) => NativeEvent {
            capability: Capability::Gyroscope(Source::Center),
            value: imu::converted(data, Conversion::DegreesTimes { times: GYRO_TIMES }),
        },
    }
}

/// The events that some events of the sensor stand for.
pub open spec fn native_events(events: Seq<Event>) -> Seq<NativeEvent> {
    events.map_values(|event: Event| native_event(event))
}

impl BmiImu {
    /// The driver applies the filter of the source.
    pub open spec fn wf(&self) -> bool {
        self.imu.wf()
    }

    /// Create a new BMI IMU source device with the driver that was made for it.
    pub fn new(request: DriverRequest, driver: Driver) -> (source: Self)
        requires
            driver.wf(),
            driver.filtered_events@ == Set::<Capability>::empty(),
        ensures
            source.wf(),
            source.imu.driver == Some(driver),
            source.imu.device_id == request.id,
            source.imu.device_name == request.name,
            source.imu.mount_matrix == request.mount_matrix,
            source.imu.sample_rate == request.sample_rate,
            source.imu.event_filter@ == Set::<Capability>::empty(),
    {
        BmiImu { imu: Imu::new(request, driver) }
    }

    /// Turns what was read into events.
    pub fn poll<E>(&self, input: PollInput<E>, timestamp: u64) -> (result: Result<
        Vec<NativeEvent>,
        E,
    >)
        requires
            self.wf(),
            self.imu.driver matches Some(driver) ==> driver.accepts(input),
        ensures
            match (result, self.imu.polled(input, timestamp)) {
                (Ok(native), Ok(events)) => native@ == native_events(events),
                (Err(e), Err(failure)) => e == failure,
                _ => false,
            },
    {
        match self.imu.poll(input, timestamp) {
            Ok(events) => Ok(translate_events(events)),
            Err(e) => Err(e),
        }
    }

    /// The capabilities of the sensor.
    pub fn get_capabilities(&self) -> (capabilities: Vec<Capability>)
        ensures
            capabilities@ == sensor_capabilities(),
    {
        let capabilities: Vec<Capability> = vec![
            Capability::Accelerometer(Source::Center),
            Capability::Gyroscope(Source::Center),
        ];
        assert(capabilities@ =~= sensor_capabilities());
        capabilities
    }

    /// Gives the driver up before a suspend.
    pub fn on_suspend(&mut self)
        requires
            old(self).wf(),
        ensures
            final(self).wf(),
            final(self).imu.same_device(&old(self).imu),
            final(self).imu.filters() == imu::changed(old(self).imu.filters(), Change::Suspend),
    {
        self.imu.on_suspend();
    }

    /// Takes the driver that was made after a resume, if one could be made.
    pub fn on_resume(&mut self, made: Option<Driver>)
        requires
            old(self).wf(),
            made matches Some(driver) ==> driver.wf(),
        ensures
            final(self).wf(),
            final(self).imu.same_device(&old(self).imu),
            final(self).imu.filters() == imu::changed(
                old(self).imu.filters(),
                Change::Resume(made is Some),
            ),
            match (old(self).imu.driver, made) {
                (None, Some(new_driver)) => {
                    &&& final(self).imu.driver matches Some(driver)
                    &&& driver.accel == new_driver.accel
                    &&& driver.gyro == new_driver.gyro
                    &&& driver.mount_matrix == new_driver.mount_matrix
                    &&& driver.read_mode == new_driver.read_mode
                },
                _ => final(self).imu.driver == old(self).imu.driver,
            },
    {
        self.imu.on_resume(made);
    }

    /// Replaces the set of events that are not generated.
    pub fn update_event_filter(&mut self, events: CapabilitySet)
        requires
            old(self).wf(),
            events.wf(),
        ensures
            final(self).wf(),
            final(self).imu.same_device(&old(self).imu),
            final(self).imu.filters() == imu::changed(
                old(self).imu.filters(),
                Change::Update(events@),
            ),
            match old(self).imu.driver {
                Some(before) => {
                    &&& final(self).imu.driver matches Some(driver)
                    &&& driver.accel == before.accel
                    &&& driver.gyro == before.gyro
                    &&& driver.mount_matrix == before.mount_matrix
                    &&& driver.read_mode == before.read_mode
                },
                None => final(self).imu.driver is None,
            },
    {
        self.imu.update_event_filter(events);
    }

    /// The events that are not generated unless it is said otherwise.
    pub fn get_default_event_filter<E>(&self, modules: Result<Vec<Result<String, E>>, E>) -> (result:
        Result<CapabilitySet, E>)
        ensures
            match self.imu.driver {
                Some(_) => match (
                    result,
                    driver::module_listed(modules, driver::LENOVO_GO_MODULE@),
                ) {
                    (Ok(filter), Ok(listed)) => filter.wf() && filter@ == driver::default_filter(
                        listed,
                    ),
                    (Err(e), Err(failure)) => e == failure,
                    _ => false,
                },
                None => result matches Ok(filter) && filter.wf() && filter@ == Set::<
                    Capability,
                >::empty(),
            },
    {
        self.imu.get_default_event_filter(modules)
    }
}

/// Translates events of the sensor.
pub fn translate_events(events: Vec<Event>) -> (native: Vec<NativeEvent>)
    ensures
        native@ == native_events(events@),
{
    let mut native: Vec<NativeEvent> = Vec::new();
    let ghost all = events@;
    for event in it: events
        invariant
            it.seq() == all,
            native@ == native_events(all.take(it.index() as int)),
    {
        native.push(translate_event(event));
        assert(native@ =~= native_events(all.take(it.index() + 1)));
    }
    assert(all.take(all.len() as int) =~= all);
    native
}

/// Translates an event of the sensor.
pub fn translate_event(event: Event) -> (native: NativeEvent)
    ensures
        native == native_event(event),
{
    match event {
        Event::Accelerometer(data, _) => {
            let conversion = Conversion::Unchanged;
            let cap = Capability::Accelerometer(Source::Center);
            NativeEvent::new(cap, imu::convert(data, conversion))
        },
        Event::Gyro(data, _) => {
            let conversion = Conversion::DegreesTimes { times: GYRO_TIMES };
            let cap = Capability::Gyroscope(Source::Center);
            NativeEvent::new(cap, imu::convert(data, conversion))
        },
    }
}

/// Every event has one of the capabilities.
pub proof fn law_every_event_has_a_capability(event: Event)
    ensures
        sensor_capabilities().contains(native_event(event).capability),
{
    let list = sensor_capabilities();
    assert(list[0] == Capability::Accelerometer(Source::Center));
    assert(list[1] == Capability::Gyroscope(Source::Center));
}

/// What the source announces is what its filter goes by: where all its capabilities are filtered,
/// no poll gives an event.
pub proof fn law_filter_of_all_capabilities_silences<E>(
    driver: Driver,
    input: PollInput<E>,
    timestamp: u64,
)
    requires
        forall|i: int|
            0 <= i < sensor_capabilities().len() ==> driver.filtered_events@.contains(
                #[trigger] sensor_capabilities()[i],
            ),
    ensures
        driver.polled(input, timestamp) == Ok::<Seq<Event>, E>(Seq::empty()),
{
    let list = sensor_capabilities();
    assert(driver.filtered_events@.contains(list[0]));
    assert(driver.filtered_events@.contains(list[1]));
    assert(!driver.emits_accel() && !driver.emits_gyro());
    let none = Seq::<Event>::empty();
    assert(none + none =~= none);
}

} // verus!
