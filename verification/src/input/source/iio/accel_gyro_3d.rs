//! Accelerometers and gyroscopes behind a sensor hub as sources of events.

use vstd::prelude::*;

use crate::drivers::iio_imu::driver;
use crate::drivers::iio_imu::driver::{Driver, PollInput};
use crate::drivers::iio_imu::event::Event;
use crate::input::capability::{Capability, CapabilitySet, Source};
use crate::input::event::{Conversion, NativeEvent};

use super::imu;
use super::imu::{Change, DriverRequest, Imu};

verus! {

/// An acceleration unit of the Steam Deck is 6125 / 10000000 m/s².
pub const ACCEL_NUMERATOR: u32 = 6125;

pub const ACCEL_DENOMINATOR: u32 = 10_000_000;

/// A rotation unit of the Steam Deck is 625 / 10000 degrees per second.
pub const GYRO_NUMERATOR: u32 = 625;

pub const GYRO_DENOMINATOR: u32 = 10_000;

pub struct AccelGyro3dImu {
    pub imu: Imu,
    pub capabilities: Vec<Capability>,
}

/// The capabilities of a device with or without either sensor.
pub open spec fn sensor_capabilities(accel: bool, gyro: bool) -> Seq<Capability> {
    (if accel {
        seq![Capability::Accelerometer(Source::Center)]
    } else {
        Seq::<Capability>::empty()
    }) + (if gyro {
        seq![Capability::Gyroscope(Source::Center)]
    } else {
        Seq::<Capability>::empty()
    })
}

/// The event that an event of the sensor stands for.
pub open spec fn native_event(event: Event) -> NativeEvent {
    match event {
        Event::Accelerometer(data, _) => NativeEvent {
            capability: Capability::Accelerometer(Source::Center),
            value: imu::converted(
                data,
                Conversion::Units { numerator: ACCEL_NUMERATOR, denominator: ACCEL_DENOMINATOR },
            ),
        },
        Event::Gyro(data, _) => NativeEvent {
            capability: Capability::Gyroscope(Source::Center),
            value: imu::converted(
                data,
                Conversion::DegreeUnits { numerator: GYRO_NUMERATOR, denominator: GYRO_DENOMINATOR },
            ),
        },
    }
}

/// The events that some events of the sensor stand for.
pub open spec fn native_events(events: Seq<Event>) -> Seq<NativeEvent> {
    events.map_values(|event: Event| native_event(event))
}

impl AccelGyro3dImu {
    /// The driver applies the filter of the source.
    pub open spec fn wf(&self) -> bool {
        self.imu.wf()
    }

    /// Create a new Accel Gyro 3D source device with the driver that was made for it. The
    /// accelerometer and the gyroscope may be separate devices, so the capabilities are those that
    /// the driver found.
    pub fn new(request: DriverRequest, driver: Driver) -> (source: Self)
        requires
            driver.wf(),
            driver.filtered_events@ == Set::<Capability>::empty(),
        ensures
            source.wf(),
            source.imu.driver == Some(driver),
            source.imu.device_id == request.id,
            source.imu.device_name == request.name,
            source.imu.mount_matrix == request.mount_matrix,
            source.imu.sample_rate == request.sample_rate,
            source.imu.event_filter@ == Set::<Capability>::empty(),
            source.capabilities@ == sensor_capabilities(
                driver.accel.order().len() > 0,
                driver.gyro.order().len() > 0,
            ),
    {
        let mut capabilities: Vec<Capability> = Vec::new();
        if driver.has_accel() {
            capabilities.push(Capability::Accelerometer(Source::Center));
        }
        if driver.has_gyro() {
            capabilities.push(Capability::Gyroscope(Source::Center));
        }
        assert(capabilities@ =~= sensor_capabilities(
            driver.accel.order().len() > 0,
            driver.gyro.order().len() > 0,
        ));
        AccelGyro3dImu { imu: Imu::new(request, driver), capabilities }
    }

    /// Turns what was read into events.
    pub fn poll<E>(&self, input: PollInput<E>, timestamp: u64) -> (result: Result<
        Vec<NativeEvent>,
        E,
    >)
        requires
            self.wf(),
            self.imu.driver matches Some(driver) ==> driver.accepts(input),
        ensures
            match (result, self.imu.polled(input, timestamp)) {
                (Ok(native), Ok(events)) => native@ == native_events(events),
                (Err(e), Err(failure)) => e == failure,
                _ => false,
            },
    {
        match self.imu.poll(input, timestamp) {
            Ok(events) => Ok(translate_events(events)),
            Err(e) => Err(e),
        }
    }

    /// The capabilities that the device was found to have.
    pub fn get_capabilities(&self) -> (capabilities: Vec<Capability>)
        ensures
            capabilities@ == self.capabilities@,
    {
        let capabilities = self.capabilities.clone();
        assert(capabilities@ =~= self.capabilities@);
        capabilities
    }

    /// Gives the driver up before a suspend.
    pub fn on_suspend(&mut self)
        requires
            old(self).wf(),
        ensures
            final(self).wf(),
            final(self).capabilities == old(self).capabilities,
            final(self).imu.same_device(&old(self).imu),
            final(self).imu.filters() == imu::changed(old(self).imu.filters(), Change::Suspend),
    {
        self.imu.on_suspend();
    }

    /// Takes the driver that was made after a resume, if one could be made.
    pub fn on_resume(&mut self, made: Option<Driver>)
        requires
            old(self).wf(),
            made matches Some(driver) ==> driver.wf(),
        ensures
            final(self).wf(),
            final(self).capabilities == old(self).capabilities,
            final(self).imu.same_device(&old(self).imu),
            final(self).imu.filters() == imu::changed(
                old(self).imu.filters(),
                Change::Resume(made is Some),
            ),
            match (old(self).imu.driver, made) {
                (None, Some(new_driver)) => {
                    &&& final(self).imu.driver matches Some(driver)
                    &&& driver.accel == new_driver.accel
                    &&& driver.gyro == new_driver.gyro
                    &&& driver.mount_matrix == new_driver.mount_matrix
                    &&& driver.read_mode == new_driver.read_mode
                },
                _ => final(self).imu.driver == old(self).imu.driver,
            },
    {
        self.imu.on_resume(made);
    }

    /// Replaces the set of events that are not generated.
    pub fn update_event_filter(&mut self, events: CapabilitySet)
        requires
            old(self).wf(),
            events.wf(),
        ensures
            final(self).wf(),
            final(self).capabilities == old(self).capabilities,
            final(self).imu.same_device(&old(self).imu),
            final(self).imu.filters() == imu::changed(
                old(self).imu.filters(),
                Change::Update(events@),
            ),
            match old(self).imu.driver {
                Some(before) => {
                    &&& final(self).imu.driver matches Some(driver)
                    &&& driver.accel == before.accel
                    &&& driver.gyro == before.gyro
                    &&& driver.mount_matrix == before.mount_matrix
                    &&& driver.read_mode == before.read_mode
                },
                None => final(self).imu.driver is None,
            },
    {
        self.imu.update_event_filter(events);
    }

    /// The events that are not generated unless it is said otherwise.
    pub fn get_default_event_filter<E>(&self, modules: Result<Vec<Result<String, E>>, E>) -> (result:
        Result<CapabilitySet, E>)
        ensures
            match self.imu.driver {
                Some(_) => match (
                    result,
                    driver::module_listed(modules, driver::LENOVO_GO_MODULE@),
                ) {
                    (Ok(filter), Ok(listed)) => filter.wf() && filter@ == driver::default_filter(
                        listed,
                    ),
                    (Err(e), Err(failure)) => e == failure,
                    _ => false,
                },
                None => result matches Ok(filter) && filter.wf() && filter@ == Set::<
                    Capability,
                >::empty(),
            },
    {
        self.imu.get_default_event_filter(modules)
    }
}

/// Translates events of the sensor.
pub fn translate_events(events: Vec<Event>) -> (native: Vec<NativeEvent>)
    ensures
        native@ == native_events(events@),
{
    let mut native: Vec<NativeEvent> = Vec::new();
    let ghost all = events@;
    for event in it: events
        invariant
            it.seq() == all,
            native@ == native_events(all.take(it.index() as int)),
    {
        native.push(translate_event(event));
        assert(native@ =~= native_events(all.take(it.index() + 1)));
    }
    assert(all.take(all.len() as int) =~= all);
    native
}

/// Translates an event of the sensor.
pub fn translate_event(event: Event) -> (native: NativeEvent)
    ensures
        native == native_event(event),
{
    match event {
        Event::Accelerometer(data, _) => {
            let conversion = Conversion::Units {
                numerator: ACCEL_NUMERATOR,
                denominator: ACCEL_DENOMINATOR,
            };
            let cap = Capability::Accelerometer(Source::Center);
            NativeEvent::new(cap, imu::convert(data, conversion))
        },
        Event::Gyro(data, _) => {
            let conversion = Conversion::DegreeUnits {
                numerator: GYRO_NUMERATOR,
                denominator: GYRO_DENOMINATOR,
            };
            let cap = Capability::Gyroscope(Source::Center);
            NativeEvent::new(cap, imu::convert(data, conversion))
        },
    }
}

/// A source only gives events of sensors that it announced: every event of a poll has one of the
/// capabilities that were found when the driver was made.
pub proof fn law_events_are_announced<E>(
    driver: Driver,
    input: PollInput<E>,
    timestamp: u64,
    i: int,
)
    requires
        driver.polled(input, timestamp) is Ok,
        0 <= i < driver.polled(input, timestamp)->Ok_0.len(),
    ensures
        sensor_capabilities(
            driver.accel.order().len() > 0,
            driver.gyro.order().len() > 0,
        ).contains(native_event(driver.polled(input, timestamp)->Ok_0[i]).capability),
{
    driver::law_events_of_a_poll(driver, input, timestamp);
    let accel = driver.accel.order().len() > 0;
    let gyro = driver.gyro.order().len() > 0;
    let list = sensor_capabilities(accel, gyro);
    let events = driver.polled(input, timestamp)->Ok_0;
    if events[i] is Accelerometer {
        assert(list[0] == Capability::Accelerometer(Source::Center));
    } else {
        assert(list[list.len() - 1] == Capability::Gyroscope(Source::Center));
    }
}

} // verus!
