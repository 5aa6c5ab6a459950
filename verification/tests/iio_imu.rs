use inputplumber::drivers::iio_imu::buffer::{
    cleanup_iio_buffer_state, detect_storage_bits, enables_scan_element, parse_storage_bits,
    read_buffer_sample, sample_width, scan_element_path, scan_elements_to_disable,
    try_buffer_mode, type_paths, well_ordered, BufferError, ChannelSamples, CleanupAction,
    CleanupStep, SampleWidth, ScanEntry,
};
use inputplumber::drivers::iio_imu::driver::{
    is_driver_loaded, modules_error, poll_backoff, should_try_buffer, Channels, Driver, OpenBuffer, PollInput,
    ReadMode,
};
use inputplumber::drivers::iio_imu::event::{AxisData, AxisValue, Event, Reading};
use inputplumber::drivers::iio_imu::info::{
    get_channels_with_type, ChannelKind, FoundChannel, MountMatrix,
};
use inputplumber::drivers::iio_imu::rate::{
    rate_attribute, rate_list_attribute, rate_to_set, read_sample_rates_available,
    sensors_to_set, set_sample_rate, trigger_rate, RateStep,
};
use inputplumber::drivers::iio_imu::trigger::{find_trigger, Candidate};
use inputplumber::float::{maximum, Float};
use inputplumber::input::capability::{Capability, CapabilitySet, Source};

fn float(value: f64) -> Float {
    Float { bits: value.to_bits() }
}

fn floats(values: &[f64]) -> Vec<Float> {
    values.iter().map(|value| float(*value)).collect()
}

fn channel(kind: ChannelKind, id: &str, offset: i64, scale: f64) -> FoundChannel {
    FoundChannel {
        kind,
        id: Some(String::from(id)),
        offset: Some(offset),
        sample_rate: Some(float(100.0)),
        sample_rates_avail: Some(floats(&[100.0, 200.0])),
        scale: Some(float(scale)),
        scales_avail: Some(floats(&[scale])),
    }
}

fn bare(kind: ChannelKind, id: Option<&str>) -> FoundChannel {
    FoundChannel {
        kind,
        id: id.map(String::from),
        offset: None,
        sample_rate: None,
        sample_rates_avail: None,
        scale: None,
        scales_avail: None,
    }
}

fn accel() -> Vec<FoundChannel> {
    vec![
        channel(ChannelKind::Accel, "accel_x", 1, 0.5),
        channel(ChannelKind::Accel, "accel_y", 0, 0.25),
        channel(ChannelKind::Accel, "accel_z", -2, 2.0),
    ]
}

fn gyro() -> Vec<FoundChannel> {
    vec![
        channel(ChannelKind::AnglVel, "anglvel_z", 0, 4.0),
        channel(ChannelKind::AnglVel, "anglvel_x", 0, 3.0),
    ]
}

fn driver(accel: Vec<FoundChannel>, gyro: Vec<FoundChannel>, buffer: Option<OpenBuffer>) -> Driver {
    let channels = Channels {
        accel: get_channels_with_type(accel, ChannelKind::Accel),
        gyro: get_channels_with_type(gyro, ChannelKind::AnglVel),
    };
    Driver::new(Some(channels), None, None, None, buffer).ok().unwrap()
}

fn scaled(count: i64, scale: f64) -> Option<Reading> {
    Some(Reading { count, scale: float(scale) })
}

/// The data that a sensor gives without a mount matrix.
fn upright(x: Option<Reading>, y: Option<Reading>, z: Option<Reading>) -> AxisData {
    let value = |mx: f64, my: f64, mz: f64| AxisValue {
        mx: float(mx),
        my: float(my),
        mz: float(mz),
        x,
        y,
        z,
    };
    AxisData {
        roll: value(1.0, 0.0, 0.0),
        pitch: value(0.0, 1.0, 0.0),
        yaw: value(0.0, 0.0, 1.0),
    }
}

fn filter(list: &[Capability]) -> CapabilitySet {
    let mut set = CapabilitySet::new();
    for capability in list {
        set.insert(*capability);
    }
    set
}

fn sysfs(accel: &[i64], gyro: &[i64]) -> PollInput<String> {
    PollInput::Sysfs {
        accel: accel.iter().map(|value| Ok(*value)).collect(),
        gyro: gyro.iter().map(|value| Ok(*value)).collect(),
    }
}

#[test]
fn channels_are_collected_by_kind() {
    let mut found = accel();
    found.extend(gyro());
    found.push(bare(ChannelKind::Accel, None));
    found.push(bare(ChannelKind::Other, Some("mount")));
    let table = get_channels_with_type(found, ChannelKind::Accel);
    assert_eq!(table.len(), 3);
    let info = table.get("accel_x").unwrap();
    assert_eq!(info.offset, 1);
    assert_eq!(info.scale, float(0.5));
    assert_eq!(info.sample_rate, float(100.0));
    assert_eq!(info.sample_rates_avail, floats(&[100.0, 200.0]));
    assert_eq!(info.scales_avail, floats(&[0.5]));
}

#[test]
fn unreadable_attributes_have_defaults() {
    let table =
        get_channels_with_type(vec![bare(ChannelKind::AnglVel, Some("g_x"))], ChannelKind::AnglVel);
    let info = table.get("g_x").unwrap();
    assert_eq!(info.offset, 0);
    assert_eq!(info.sample_rate, float(4.0));
    assert_eq!(info.sample_rates_avail, floats(&[4.0]));
    assert_eq!(info.scale, float(1.0));
    assert_eq!(info.scales_avail, floats(&[1.0]));
}

#[test]
fn later_channel_with_the_same_id_is_kept() {
    let table = get_channels_with_type(
        vec![
            channel(ChannelKind::Accel, "a_x", 1, 1.0),
            channel(ChannelKind::Accel, "a_y", 2, 1.0),
            channel(ChannelKind::Accel, "a_x", 3, 1.0),
        ],
        ChannelKind::Accel,
    );
    assert_eq!(table.len(), 2);
    assert_eq!(table.key_at(0), "a_x");
    assert_eq!(table.value_at(0).offset, 3);
}

#[test]
fn device_must_be_found() {
    let error = match Driver::new(None, None, None, None, None) {
        Ok(_) => panic!("found"),
        Err(error) => error,
    };
    assert_eq!(error.message(), "Failed to find device");
}

#[test]
fn mount_matrix_is_chosen() {
    let row = |value: f64| (float(value), float(value), float(value));
    let configured = MountMatrix { x: row(1.0), y: row(2.0), z: row(3.0) };
    let mounted = MountMatrix { x: row(4.0), y: row(5.0), z: row(6.0) };
    let channels = || {
        Some(Channels {
            accel: get_channels_with_type(accel(), ChannelKind::Accel),
            gyro: get_channels_with_type(gyro(), ChannelKind::AnglVel),
        })
    };
    let made = Driver::new(channels(), Some(configured), Some(mounted), None, None).ok().unwrap();
    assert_eq!(made.mount_matrix, configured);
    let made = Driver::new(channels(), None, Some(mounted), None, None).ok().unwrap();
    assert_eq!(made.mount_matrix, mounted);
    let made = Driver::new(channels(), None, None, None, None).ok().unwrap();
    assert_eq!(made.mount_matrix, MountMatrix::default());
    assert_eq!(made.mount_matrix.x, (float(1.0), float(0.0), float(0.0)));
    assert_eq!(made.mount_matrix.y, (float(0.0), float(1.0), float(0.0)));
    assert_eq!(made.mount_matrix.z, (float(0.0), float(0.0), float(1.0)));
}

#[test]
fn buffer_is_used_where_it_can_be() {
    let channels = || {
        Some(Channels {
            accel: get_channels_with_type(accel(), ChannelKind::Accel),
            gyro: get_channels_with_type(gyro(), ChannelKind::AnglVel),
        })
    };
    let open = Some(OpenBuffer { poll_fd: 7, storage_bits: 16 });
    let buffered = ReadMode::Buffer { poll_fd: 7, storage_bits: 16 };
    for (use_buffer, buffer, mode, fd) in [
        (None, open, buffered, Some(7)),
        (Some(true), open, buffered, Some(7)),
        (Some(false), open, ReadMode::Sysfs, None),
        (None, None, ReadMode::Sysfs, None),
    ] {
        let made = Driver::new(channels(), None, None, use_buffer, buffer).ok().unwrap();
        assert_eq!(made.read_mode, mode);
        assert_eq!(made.poll_fd(), fd);
    }
}

#[test]
fn sysfs_poll_gives_scaled_readings() {
    let driver = driver(accel(), gyro(), None);
    let events = driver.poll(sysfs(&[10, 20, 30], &[5, 6]), 99).unwrap();
    assert_eq!(
        events,
        vec![
            Event::Accelerometer(
                upright(scaled(11, 0.5), scaled(20, 0.25), scaled(28, 2.0)),
                99
            ),
            Event::Gyro(upright(scaled(6, 3.0), None, scaled(5, 4.0)), 99),
        ]
    );
}

#[test]
fn readings_are_rotated_by_the_mount_matrix() {
    let matrix = MountMatrix {
        x: (float(0.0), float(1.0), float(0.0)),
        y: (float(-1.0), float(0.0), float(0.0)),
        z: (float(0.0), float(0.0), float(-1.0)),
    };
    let channels = Channels {
        accel: get_channels_with_type(Vec::new(), ChannelKind::Accel),
        gyro: get_channels_with_type(gyro(), ChannelKind::AnglVel),
    };
    let driver = Driver::new(Some(channels), Some(matrix), None, None, None).ok().unwrap();
    let events = driver.poll(sysfs(&[], &[5, 6]), 7).unwrap();
    let Event::Gyro(data, 7) = events[0] else {
        panic!("no gyro event");
    };
    assert_eq!((data.roll.mx, data.roll.my, data.roll.mz), matrix.x);
    assert_eq!((data.pitch.mx, data.pitch.my, data.pitch.mz), matrix.y);
    assert_eq!((data.yaw.mx, data.yaw.my, data.yaw.mz), matrix.z);
    for value in [data.roll, data.pitch, data.yaw] {
        assert_eq!((value.x, value.y, value.z), (scaled(6, 3.0), None, scaled(5, 4.0)));
    }
}

#[test]
fn sysfs_poll_fails_with_the_first_failure() {
    let driver = driver(accel(), gyro(), None);
    let failing = |list: &[Result<i64, &str>]| {
        list.iter().map(|value| value.map_err(String::from)).collect::<Vec<Result<i64, String>>>()
    };
    let input = PollInput::Sysfs {
        accel: failing(&[Ok(1), Err("accel")]),
        gyro: failing(&[Err("gyro")]),
    };
    assert_eq!(driver.poll(input, 0), Err(String::from("accel")));
    let input = PollInput::Sysfs {
        accel: failing(&[Ok(1), Ok(2), Ok(3)]),
        gyro: failing(&[Err("gyro")]),
    };
    assert_eq!(driver.poll(input, 0), Err(String::from("gyro")));
}

#[test]
fn filtered_sensor_gives_no_event() {
    let mut driver = driver(accel(), gyro(), None);
    driver.update_filtered_events(filter(&[Capability::Accelerometer(Source::Center)]));
    assert!(!driver.reads_accel());
    assert!(driver.reads_gyro());
    let events = driver.poll(sysfs(&[], &[5, 6]), 1).unwrap();
    assert_eq!(events.len(), 1);
    assert!(matches!(events[0], Event::Gyro(_, 1)));
    driver.update_filtered_events(filter(&[
        Capability::Accelerometer(Source::Center),
        Capability::Gyroscope(Source::Center),
    ]));
    assert!(driver.poll(sysfs(&[], &[]), 1).unwrap().is_empty());
    driver.update_filtered_events(CapabilitySet::new());
    assert_eq!(driver.poll(sysfs(&[1, 2, 3], &[4, 5]), 1).unwrap().len(), 2);
}

#[test]
fn missing_sensor_gives_no_event() {
    let only_gyro = driver(Vec::new(), gyro(), None);
    assert!(!only_gyro.has_accel());
    assert!(only_gyro.has_gyro());
    let events = only_gyro.poll(sysfs(&[], &[5, 6]), 1).unwrap();
    assert_eq!(events.len(), 1);
    assert!(matches!(events[0], Event::Gyro(_, _)));
}

#[test]
fn buffer_poll_skips_missing_samples() {
    let driver = driver(accel(), gyro(), Some(OpenBuffer { poll_fd: 3, storage_bits: 32 }));
    let input: PollInput<String> = PollInput::Buffer {
        refilled: true,
        accel: vec![Some(1), None, Some(3)],
        gyro: vec![None, None],
    };
    assert_eq!(
        driver.poll(input, 5).unwrap(),
        vec![
            Event::Accelerometer(
                upright(scaled(2, 0.5), None, scaled(1, 2.0)),
                5
            ),
            Event::Gyro(upright(None, None, None), 5),
        ]
    );
    let input: PollInput<String> =
        PollInput::Buffer { refilled: false, accel: Vec::new(), gyro: Vec::new() };
    assert!(driver.poll(input, 5).unwrap().is_empty());
}

#[test]
fn channel_without_an_axis_is_ignored() {
    let driver = driver(
        vec![
            channel(ChannelKind::Accel, "accel_q", 0, 1.0),
            channel(ChannelKind::Accel, "accel_x", 0, 1.0),
        ],
        Vec::new(),
        None,
    );
    let events = driver.poll(sysfs(&[7, 8], &[]), 0).unwrap();
    assert_eq!(
        events,
        vec![Event::Accelerometer(upright(scaled(8, 1.0), None, None), 0)]
    );
}

#[test]
fn loaded_module_is_found() {
    let lines = |list: &[Result<&str, &str>]| -> Result<Vec<Result<String, String>>, String> {
        Ok(list.iter().map(|line| line.map(String::from).map_err(String::from)).collect())
    };
    let name = "hid_lenovo_go";
    assert_eq!(is_driver_loaded(lines(&[]), name), Ok(false));
    assert_eq!(is_driver_loaded(lines(&[Ok("evdev 1"), Ok("hid_lenovo_go_s 2")]), name), Ok(true));
    assert_eq!(is_driver_loaded(lines(&[Ok(" hid_lenovo_go")]), name), Ok(false));
    assert_eq!(
        is_driver_loaded(lines(&[Err("io"), Ok("hid_lenovo_go")]), name),
        Err(String::from("io"))
    );
    assert_eq!(is_driver_loaded(lines(&[Ok("hid_lenovo_go"), Err("io")]), name), Ok(true));
    assert_eq!(is_driver_loaded(Err(String::from("open")), name), Err(String::from("open")));
}

#[test]
fn default_filter_depends_on_the_module() {
    let driver = driver(accel(), gyro(), None);
    let loaded: Result<Vec<Result<String, String>>, String> =
        Ok(vec![Ok(String::from("hid_lenovo_go 16384 0"))]);
    let set = driver.get_default_event_filter(loaded).unwrap();
    assert_eq!(set.len(), 2);
    assert!(set.contains(Capability::Accelerometer(Source::Center)));
    assert!(set.contains(Capability::Gyroscope(Source::Center)));
    let other: Result<Vec<Result<String, String>>, String> = Ok(vec![Ok(String::from("evdev"))]);
    assert_eq!(driver.get_default_event_filter(other).unwrap().len(), 0);
    let failed: Result<Vec<Result<String, String>>, String> = Err(String::from("gone"));
    assert_eq!(driver.get_default_event_filter(failed).err(), Some(String::from("gone")));
    assert_eq!(modules_error("gone"), "Failed to read '/proc/modules': gone");
}

#[test]
fn slow_poll_is_followed_by_a_pause() {
    assert_eq!(poll_backoff(0), None);
    assert_eq!(poll_backoff(1000), None);
    assert_eq!(poll_backoff(1001), Some(3000));
}

fn trigger(is_trigger: bool, name: Option<&str>) -> Option<Candidate> {
    Some(Candidate { is_trigger, name: name.map(String::from) })
}

#[test]
fn timer_trigger_comes_first() {
    let devices = vec![
        None,
        trigger(false, Some("hrtimer-not-a-trigger")),
        trigger(true, Some("gyro_3d-dev0")),
        trigger(true, Some("my-hrtimer-1")),
        trigger(true, Some("hrtimer-2")),
    ];
    assert_eq!(find_trigger(&devices, "gyro_3d"), Some(3));
}

#[test]
fn matching_trigger_comes_before_others() {
    let devices = vec![
        trigger(true, None),
        trigger(true, Some("accel_3d-dev1")),
        trigger(true, Some("gyro_3d-dev0")),
        trigger(true, Some("gyro_3d-dev2")),
    ];
    assert_eq!(find_trigger(&devices, "gyro_3d"), Some(2));
    assert_eq!(find_trigger(&devices, "magn_3d"), Some(0));
    assert_eq!(find_trigger(&vec![None, trigger(false, Some("x"))], "x"), None);
}

#[test]
fn sample_rate_is_chosen() {
    let available = floats(&[25.0, 400.0, 100.0]);
    assert_eq!(rate_to_set(Some(float(50.0)), &available), float(50.0));
    assert_eq!(rate_to_set(None, &available), float(400.0));
    assert_eq!(rate_to_set(None, &Vec::new()), float(200.0));
    assert_eq!(trigger_rate(None), float(200.0));
    assert_eq!(trigger_rate(Some(float(90.0))), float(90.0));
}

#[test]
fn maximum_agrees_with_floats() {
    for list in [
        vec![],
        vec![1.5],
        vec![-3.0, -2.0, -7.5],
        vec![0.0, f64::NAN, 12.5, 3.0],
        vec![f64::NAN],
        vec![f64::INFINITY, 1.0],
        vec![f64::NEG_INFINITY, -1.0e300, 1.0e-300],
    ] {
        let expected = list.iter().cloned().fold(f64::NEG_INFINITY, f64::max);
        assert_eq!(maximum(&floats(&list)), float(expected));
    }
}

#[test]
fn available_rates_are_those_of_the_first_list() {
    let read = |lists: &[Option<&[f64]>], device: Option<&[f64]>| {
        read_sample_rates_available(
            lists.iter().map(|list| list.map(floats)).collect(),
            device.map(floats),
        )
    };
    assert_eq!(
        read(&[None, Some(&[]), Some(&[1.0, 2.0]), Some(&[3.0])], Some(&[4.0])),
        floats(&[1.0, 2.0])
    );
    assert_eq!(read(&[None, Some(&[])], Some(&[4.0])), floats(&[4.0]));
    assert!(read(&[None], Some(&[])).is_empty());
    assert!(read(&[], None).is_empty());
}

#[test]
fn rate_is_written_to_channels_and_then_to_the_device() {
    assert_eq!(set_sample_rate(2), RateStep::Channel(0));
    assert_eq!(RateStep::Channel(0).next(2, false), RateStep::Channel(1));
    assert_eq!(RateStep::Channel(0).next(2, true), RateStep::Done);
    assert_eq!(RateStep::Channel(1).next(2, false), RateStep::Device);
    assert_eq!(RateStep::Device.next(2, false), RateStep::Done);
    assert_eq!(set_sample_rate(0), RateStep::Device);
    assert_eq!(rate_attribute(ChannelKind::Accel), Some("in_accel_sampling_frequency"));
    assert_eq!(rate_attribute(ChannelKind::AnglVel), Some("in_anglvel_sampling_frequency"));
    assert_eq!(rate_attribute(ChannelKind::Other), None);
    assert_eq!(
        rate_list_attribute(ChannelKind::Accel),
        Some("in_accel_sampling_frequency_available")
    );
    assert_eq!(
        rate_list_attribute(ChannelKind::AnglVel),
        Some("in_anglvel_sampling_frequency_available")
    );
    assert_eq!(rate_list_attribute(ChannelKind::Other), None);
}

#[test]
fn storage_bits_are_parsed() {
    assert_eq!(parse_storage_bits("le:s16/16>>0"), Some(16));
    assert_eq!(parse_storage_bits("le:s12/64>>4\n"), Some(64));
    assert_eq!(parse_storage_bits("le:s16/+32>>0"), Some(32));
    assert_eq!(parse_storage_bits("le:s16/16X2>>0"), None);
    assert_eq!(parse_storage_bits("le:s16/>>0"), None);
    assert_eq!(parse_storage_bits("le:s16>>0"), None);
    assert_eq!(parse_storage_bits("le:s16/16"), None);
    assert!(well_ordered("le:s16/16>>0"));
    assert!(!well_ordered("le>>s16/16"));
}

#[test]
fn storage_bits_are_detected() {
    let types = |list: &[Option<&str>]| -> Vec<Option<String>> {
        list.iter().map(|kind| kind.map(String::from)).collect()
    };
    assert_eq!(detect_storage_bits(&types(&[None, Some("junk"), Some("le:s16/16>>0")])), 16);
    assert_eq!(detect_storage_bits(&types(&[Some("le:s64/64>>0"), Some("le:s16/16>>0")])), 64);
    assert_eq!(detect_storage_bits(&types(&[None, None, None, None])), 32);
    assert_eq!(
        type_paths("iio:device0"),
        vec![
            "/sys/bus/iio/devices/iio:device0/scan_elements/in_accel_x_type",
            "/sys/bus/iio/devices/iio:device0/scan_elements/in_anglvel_x_type",
            "/sys/bus/iio/devices/iio:device0/scan_elements/in_accel_y_type",
            "/sys/bus/iio/devices/iio:device0/scan_elements/in_anglvel_y_type",
        ]
    );
}

#[test]
fn last_sample_is_read() {
    assert_eq!(sample_width(16), Some(SampleWidth::Bits16));
    assert_eq!(sample_width(32), Some(SampleWidth::Bits32));
    assert_eq!(sample_width(64), Some(SampleWidth::Bits64));
    assert_eq!(sample_width(24), None);
    assert_eq!(read_buffer_sample(&ChannelSamples::Bits16(vec![1, -5])), Some(-5));
    assert_eq!(read_buffer_sample(&ChannelSamples::Bits32(vec![i32::MIN])), Some(-2147483648));
    assert_eq!(read_buffer_sample(&ChannelSamples::Bits64(vec![3, i64::MAX])), Some(i64::MAX));
    assert_eq!(read_buffer_sample(&ChannelSamples::Bits64(vec![])), None);
}

#[test]
fn buffer_plan_is_made() {
    let devices = vec![trigger(true, Some("t"))];
    let plan = try_buffer_mode(&devices, "gyro_3d", &vec![false, true, true]).ok().unwrap();
    assert_eq!(plan.trigger, 0);
    assert_eq!(plan.channels, Ok(vec![1, 2]));
    let plan = try_buffer_mode(&devices, "gyro_3d", &vec![false]).ok().unwrap();
    assert_eq!(plan.channels, Err(BufferError::NoScanElements));
    let error = try_buffer_mode(&vec![], "gyro_3d", &vec![true]).err().unwrap();
    assert_eq!(error, BufferError::NoTrigger);
    assert_eq!(error.message(), "No suitable IIO trigger found");
    assert_eq!(
        BufferError::NoScanElements.message(),
        "No scan elements available for buffer mode"
    );
}

fn cleanup(enable: Option<&str>, disabled: bool, bound: Option<&str>) -> Vec<String> {
    let mut done = Vec::new();
    let mut step = cleanup_iio_buffer_state();
    loop {
        let mut content = None;
        let mut written = true;
        match step.action("iio:device1") {
            CleanupAction::Read(path) => {
                content = if step == CleanupStep::CheckBuffer { enable } else { bound };
                done.push(format!("read {path}"));
            }
            CleanupAction::Write { path, text } => {
                written = step != CleanupStep::DisableBuffer || disabled;
                done.push(format!("write {path} '{text}'"));
            }
            CleanupAction::List(path) => done.push(format!("list {path}")),
            CleanupAction::Finished => return done,
        }
        step = step.next(content, written);
    }
}

#[test]
fn residue_is_cleaned_up() {
    let dir = "/sys/bus/iio/devices/iio:device1";
    let check = format!("read {dir}/buffer/enable");
    let disable = format!("write {dir}/buffer/enable '0'");
    let bound = format!("read {dir}/trigger/current_trigger");
    let unbind = format!("write {dir}/trigger/current_trigger ''");
    let list = format!("list {dir}/scan_elements");
    assert_eq!(
        cleanup(Some("1\n"), true, Some("timer\n")),
        vec![check.clone(), disable.clone(), bound.clone(), unbind.clone(), list.clone()]
    );
    assert_eq!(cleanup(Some("1\n"), false, Some("timer\n")), vec![check.clone(), disable]);
    assert_eq!(
        cleanup(Some("0\n"), true, Some(" \n")),
        vec![check.clone(), bound.clone(), list.clone()]
    );
    assert_eq!(cleanup(None, true, None), vec![check.clone(), bound.clone(), list.clone()]);
    assert_eq!(cleanup(None, true, Some("t")), vec![check, bound, unbind, list]);
}

#[test]
fn enabled_scan_elements_are_disabled() {
    let entry = |name: &str, content: Option<&str>| ScanEntry {
        name: String::from(name),
        content: content.map(String::from),
    };
    let entries = vec![
        entry("in_accel_x_en", Some("1\n")),
        entry("in_accel_x_type", Some("1")),
        entry("in_accel_y_en", Some("0\n")),
        entry("in_accel_z_en", None),
        entry("in_timestamp_en", Some("1")),
    ];
    assert_eq!(scan_elements_to_disable(&entries), vec![0, 4]);
    assert!(enables_scan_element("in_accel_x_en"));
    assert!(!enables_scan_element("in_accel_x_type"));
    assert_eq!(
        scan_element_path("iio:device0", "in_accel_x_en"),
        "/sys/bus/iio/devices/iio:device0/scan_elements/in_accel_x_en"
    );
}

#[test]
fn rates_are_set_for_sensors_with_channels() {
    assert_eq!(sensors_to_set(3, 2), vec![ChannelKind::Accel, ChannelKind::AnglVel]);
    assert_eq!(sensors_to_set(0, 2), vec![ChannelKind::AnglVel]);
    assert_eq!(sensors_to_set(1, 0), vec![ChannelKind::Accel]);
    assert!(sensors_to_set(0, 0).is_empty());
}

#[test]
fn buffer_is_tried_unless_ruled_out() {
    assert!(should_try_buffer(None));
    assert!(should_try_buffer(Some(true)));
    assert!(!should_try_buffer(Some(false)));
}
