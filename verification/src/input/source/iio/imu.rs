//! What all inertial sensors have in common: the driver is given up for a suspend and made again
//! after it.

use vstd::prelude::*;

use crate::drivers::iio_imu::driver;
use crate::drivers::iio_imu::driver::{Driver, PollInput};
use crate::drivers::iio_imu::event::{AxisData, Event};
use crate::drivers::iio_imu::info::MountMatrix;
use crate::float::Float;
use crate::input::capability::{Capability, CapabilitySet};
use crate::input::event::{Conversion, Converted, InputValue};
use crate::text;
use crate::udev::device::UdevDevice;

verus! {

/// How long to wait after a resume before a driver is made, in milliseconds.
pub const RESUME_RECOVER_DELAY: u64 = 3000;

/// A configured mount matrix, by its rows.
pub struct MatrixConfig {
    pub x: [Float; 3],
    pub y: [Float; 3],
    pub z: [Float; 3],
}

/// The configuration of a sensor.
pub struct IioConfig {
    pub mount_matrix: Option<MatrixConfig>,
    pub sample_rate: Option<Float>,
}

/// The rows as triples.
pub open spec fn matrix_of(config: MatrixConfig) -> MountMatrix {
    MountMatrix {
        x: (config.x@[0], config.x@[1], config.x@[2]),
        y: (config.y@[0], config.y@[1], config.y@[2]),
        z: (config.z@[0], config.z@[1], config.z@[2]),
    }
}

/// The mount matrix that the configuration gives.
pub open spec fn configured_matrix(config: Option<IioConfig>) -> Option<MountMatrix> {
    match config {
        Some(IioConfig { mount_matrix: Some(matrix), .. }) => Some(matrix_of(matrix)),
        _ => None,
    }
}

/// The sample rate that the configuration gives.
pub open spec fn configured_rate(config: Option<IioConfig>) -> Option<Float> {
    match config {
        Some(config) => config.sample_rate,
        None => None,
    }
}

/// The values of all axes with the same conversion.
pub open spec fn converted(data: AxisData, conversion: Conversion) -> InputValue {
    InputValue::Vector3 {
        x: Some(Converted { value: data.roll, conversion }),
        y: Some(Converted { value: data.pitch, conversion }),
        z: Some(Converted { value: data.yaw, conversion }),
    }
}

/// The values of all axes with the same conversion.
pub fn convert(data: AxisData, conversion: Conversion) -> (value: InputValue)
    ensures
        value == converted(data, conversion),
{
    InputValue::Vector3 {
        x: Some(Converted { value: data.roll, conversion }),
        y: Some(Converted { value: data.pitch, conversion }),
        z: Some(Converted { value: data.yaw, conversion }),
    }
}

/// What a driver is made from.
pub struct DriverRequest {
    pub id: String,
    pub name: String,
    pub mount_matrix: Option<MountMatrix>,
    pub sample_rate: Option<Float>,
}

/// A change that a source goes through.
pub enum Change {
    Suspend,
    /// Whether a driver could be made.
    Resume(bool),
    Update(Set<Capability>),
}

/// The filter of a source, and the one that its driver applies, if there is a driver.
pub type FilterState = (Set<Capability>, Option<Set<Capability>>);

/// The filters after a change.
pub open spec fn changed(state: FilterState, change: Change) -> FilterState {
    match change {
        Change::Suspend => (state.0, None),
        Change::Resume(made) => if state.1 is None && made {
            (state.0, Some(state.0))
        } else {
            state
        },
        Change::Update(filter) => (
            filter,
            match state.1 {
                Some(_) => Some(filter),
                None => None,
            },
        ),
    }
}

/// The filters after some changes.
pub open spec fn changed_by(state: FilterState, changes: Seq<Change>) -> FilterState
    decreases changes.len(),
{
    if changes.len() == 0 {
        state
    } else {
        changed(changed_by(state, changes.drop_last()), changes.last())
    }
}

/// The filter that was set last.
pub open spec fn last_filter(first: Set<Capability>, changes: Seq<Change>) -> Set<Capability>
    decreases changes.len(),
{
    if changes.len() == 0 {
        first
    } else {
        match changes.last() {
            Change::Update(filter) => filter,
            _ => last_filter(first, changes.drop_last()),
        }
    }
}

/// The state of a source.
pub struct Imu {
    pub driver: Option<Driver>,
    pub device_id: String,
    pub device_name: String,
    pub mount_matrix: Option<MountMatrix>,
    pub sample_rate: Option<Float>,
    pub event_filter: CapabilitySet,
}

/// Decides what the driver for a device is made from.
pub fn driver_request(device_info: &UdevDevice, config: &Option<IioConfig>) -> (request:
    DriverRequest)
    ensures
        request.id@ == device_info.sysname@,
        request.name@ == device_info.name@,
        request.mount_matrix == configured_matrix(*config),
        request.sample_rate == configured_rate(*config),
{
    let mut mount_matrix: Option<MountMatrix> = None;
    let mut sample_rate: Option<Float> = None;
    if let Some(config) = config {
        if let Some(matrix) = &config.mount_matrix {
            mount_matrix = Some(
                MountMatrix {
                    x: (matrix.x[0], matrix.x[1], matrix.x[2]),
                    y: (matrix.y[0], matrix.y[1], matrix.y[2]),
                    z: (matrix.z[0], matrix.z[1], matrix.z[2]),
                },
            );
        }
        sample_rate = config.sample_rate;
    }
    DriverRequest {
        id: device_info.sysname.as_str().to_owned(),
        name: device_info.name.as_str().to_owned(),
        mount_matrix,
        sample_rate,
    }
}

/// The message for a default filter that could not be decided.
pub fn filter_error(detail: &str) -> (message: String)
    ensures
        message@ == "Failed to get default event filter: "@ + detail@,
{
    text::joined("Failed to get default event filter: ", detail)
}

impl Imu {
    /// The driver applies the filter of the source.
    pub open spec fn wf(&self) -> bool {
        &&& self.event_filter.wf()
        &&& self.driver matches Some(driver) ==> driver.wf() && driver.filtered_events@
            == self.event_filter@
    }

    /// The filter of the source, and the one that its driver applies, if there is a driver.
    pub open spec fn filters(&self) -> FilterState {
        (
            self.event_filter@,
            match self.driver {
                Some(driver) => Some(driver.filtered_events@),
                None => None,
            },
        )
    }

    /// What a driver is made from is the same.
    pub open spec fn same_device(&self, other: &Imu) -> bool {
        &&& self.device_id == other.device_id
        &&& self.device_name == other.device_name
        &&& self.mount_matrix == other.mount_matrix
        &&& self.sample_rate == other.sample_rate
    }

    /// The events of a poll: none where there is no driver.
    pub open spec fn polled<E>(&self, input: PollInput<E>, timestamp: u64) -> Result<
        Seq<Event>,
        E,
    > {
        match self.driver {
            Some(driver) => driver.polled(input, timestamp),
            None => Ok(Seq::empty()),
        }
    }

    /// A source with the driver that was made for the request.
    pub fn new(request: DriverRequest, driver: Driver) -> (imu: Self)
        requires
            driver.wf(),
            driver.filtered_events@ == Set::<Capability>::empty(),
        ensures
            imu.wf(),
            imu.driver == Some(driver),
            imu.device_id == request.id,
            imu.device_name == request.name,
            imu.mount_matrix == request.mount_matrix,
            imu.sample_rate == request.sample_rate,
            imu.event_filter@ == Set::<Capability>::empty(),
    {
        Imu {
            driver: Some(driver),
            device_id: request.id,
            device_name: request.name,
            mount_matrix: request.mount_matrix,
            sample_rate: request.sample_rate,
            event_filter: CapabilitySet::new(),
        }
    }

    /// Turns what was read into events of the sensor.
    pub fn poll<E>(&self, input: PollInput<E>, timestamp: u64) -> (result: Result<
        Vec<Event>,
        E,
    >)
        requires
            self.wf(),
            self.driver matches Some(driver) ==> driver.accepts(input),
        ensures
            match result {
                Ok(events) => self.polled(input, timestamp) == Ok::<Seq<Event>, E>(events@),
                Err(e) => self.polled(input, timestamp) == Err::<Seq<Event>, E>(e),
            },
    {
        match &self.driver {
            Some(driver) => driver.poll(input, timestamp),
            None => {
                let events: Vec<Event> = Vec::new();
                assert(events@ =~= Seq::empty());
                Ok(events)
            },
        }
    }

    /// Gives the driver up before a suspend.
    pub fn on_suspend(&mut self)
        requires
            old(self).wf(),
        ensures
            final(self).wf(),
            final(self).driver is None,
            final(self).event_filter == old(self).event_filter,
            final(self).same_device(old(self)),
            final(self).filters() == changed(old(self).filters(), Change::Suspend),
    {
        self.driver = None;
    }

    /// What a driver is made from after a resume, unless there is one.
    pub fn resume_request(&self) -> (request: Option<DriverRequest>)
        ensures
            match request {
                Some(request) => {
                    &&& self.driver is None
                    &&& request.id@ == self.device_id@
                    &&& request.name@ == self.device_name@
                    &&& request.mount_matrix == self.mount_matrix
                    &&& request.sample_rate == self.sample_rate
                },
                None => self.driver is Some,
            },
    {
        match &self.driver {
            Some(_) => None,
            None => Some(
                DriverRequest {
                    id: self.device_id.as_str().to_owned(),
                    name: self.device_name.as_str().to_owned(),
                    mount_matrix: self.mount_matrix,
                    sample_rate: self.sample_rate,
                },
            ),
        }
    }

    /// Takes the driver that was made after a resume, if one could be made.
    pub fn on_resume(&mut self, made: Option<Driver>)
        requires
            old(self).wf(),
            made matches Some(driver) ==> driver.wf(),
        ensures
            final(self).wf(),
            final(self).event_filter == old(self).event_filter,
            final(self).same_device(old(self)),
            final(self).filters() == changed(old(self).filters(), Change::Resume(made is Some)),
            match (old(self).driver, made) {
                (None, Some(new_driver)) => {
                    &&& final(self).driver matches Some(driver)
                    &&& driver.accel == new_driver.accel
                    &&& driver.gyro == new_driver.gyro
                    &&& driver.mount_matrix == new_driver.mount_matrix
                    &&& driver.read_mode == new_driver.read_mode
                },
                _ => final(self).driver == old(self).driver,
            },
    {
        if self.driver.is_some() {
            return;
        }
        if let Some(mut new_driver) = made {
            new_driver.update_filtered_events(self.event_filter.duplicate());
            self.driver = Some(new_driver);
        }
    }

    /// Replaces the set of events that are not generated.
    pub fn update_event_filter(&mut self, events: CapabilitySet)
        requires
            old(self).wf(),
            events.wf(),
        ensures
            final(self).wf(),
            final(self).event_filter@ == events@,
            final(self).same_device(old(self)),
            final(self).filters() == changed(old(self).filters(), Change::Update(events@)),
            match old(self).driver {
                Some(before) => {
                    &&& final(self).driver matches Some(driver)
                    &&& driver.accel == before.accel
                    &&& driver.gyro == before.gyro
                    &&& driver.mount_matrix == before.mount_matrix
                    &&& driver.read_mode == before.read_mode
                },
                None => final(self).driver is None,
            },
    {
        self.event_filter = events.duplicate();
        if let Some(mut driver) = self.driver.take() {
            driver.update_filtered_events(events);
            self.driver = Some(driver);
        }
    }

    /// The events that are not generated unless it is said otherwise: `modules` are the lines of
    /// /proc/modules. Without a driver there are none.
    pub fn get_default_event_filter<E>(&self, modules: Result<Vec<Result<String, E>>, E>) -> (result:
        Result<CapabilitySet, E>)
        ensures
            match self.driver {
                Some(_) => match (
                    result,
                    driver::module_listed(modules, driver::LENOVO_GO_MODULE@),
                ) {
                    (Ok(filter), Ok(listed)) => filter.wf() && filter@ == driver::default_filter(
                        listed,
                    ),
                    (Err(e), Err(failure)) => e == failure,
                    _ => false,
                },
                None => result matches Ok(filter) && filter.wf() && filter@ == Set::<
                    Capability,
                >::empty(),
            },
    {
        match &self.driver {
            Some(driver) => driver.get_default_event_filter(modules),
            None => Ok(CapabilitySet::new()),
        }
    }
}

/// Whatever suspends, resumes and updates a source goes through, its filter is the one that was set
/// last, and its driver applies that filter whenever there is one.
pub proof fn law_filter_survives_suspend_and_resume(state: FilterState, changes: Seq<Change>)
    requires
        state.1 matches Some(applied) ==> applied == state.0,
    ensures
        changed_by(state, changes).0 == last_filter(state.0, changes),
        changed_by(state, changes).1 matches Some(applied) ==> applied == last_filter(
            state.0,
            changes,
        ),
    decreases changes.len(),
{
    if changes.len() > 0 {
        law_filter_survives_suspend_and_resume(state, changes.drop_last());
    }
}

/// A suspended source gives no events.
pub proof fn law_suspended_source_is_silent<E>(imu: Imu, input: PollInput<E>, timestamp: u64)
    requires
        imu.driver is None,
    ensures
        imu.polled(input, timestamp) == Ok::<Seq<Event>, E>(Seq::empty()),
{
}

} // verus!
