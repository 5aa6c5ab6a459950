use inputplumber::drivers::iio_imu::driver::{Channels, Driver, PollInput};
use inputplumber::drivers::iio_imu::event::{AxisData, AxisValue, Event, Reading};
use inputplumber::drivers::iio_imu::info::{
    get_channels_with_type, ChannelKind, FoundChannel, MountMatrix,
};
use inputplumber::drivers::oxp_hid::driver::{PID, VID};
use inputplumber::drivers::oxp_hid::event as oxp;
use inputplumber::float::Float;
use inputplumber::input::capability::{
    Capability, CapabilitySet, Gamepad, GamepadAxis, GamepadButton, GamepadTrigger,
    OutputCapability, Source,
};
use inputplumber::input::event::{Conversion, Converted, InputValue, NativeEvent, Normalized};
use inputplumber::input::output_event::{
    DualSenseReport, EvdevEvent, FFEffectData, FFEffectKind, OutputEvent, SteamDeckRumbleReport,
};
use inputplumber::input::source::hidraw::oxp_hid;
use inputplumber::input::source::hidraw::oxp_hid::{OxpHid, UploadError};
use inputplumber::input::source::hidraw::oxp_x1_hid;
use inputplumber::input::source::hidraw::oxp_x1_hid::OxpX1Hid;
use inputplumber::input::source::iio::accel_gyro_3d;
use inputplumber::input::source::iio::accel_gyro_3d::AccelGyro3dImu;
use inputplumber::input::source::iio::bmi_imu;
use inputplumber::input::source::iio::bmi_imu::BmiImu;
use inputplumber::input::source::iio::imu::{
    driver_request, filter_error, DriverRequest, IioConfig, MatrixConfig,
};
use inputplumber::udev::device::UdevDevice;

fn oxp_source(intercept: bool, vendor_rumble: bool) -> OxpHid {
    OxpHid::new(String::from("/dev/hidraw0"), VID, PID, intercept, vendor_rumble).ok().unwrap()
}

fn button(button: GamepadButton) -> Capability {
    Capability::Gamepad(Gamepad::Button(button))
}

fn oxp_report(code: u8, state: u8) -> [u8; 64] {
    let mut packet = [0u8; 64];
    packet[0] = 0xb2;
    packet[1] = 0x3f;
    packet[6] = code;
    packet[12] = state;
    packet[62] = 0x3f;
    packet
}

fn rumble(strong_magnitude: u16, weak_magnitude: u16) -> FFEffectData {
    FFEffectData { kind: FFEffectKind::Rumble { strong_magnitude, weak_magnitude } }
}

fn play(event_type: u16, code: u16, value: i32) -> OutputEvent {
    OutputEvent::Evdev(EvdevEvent { event_type, code, value })
}

fn float(value: f64) -> Float {
    Float { bits: value.to_bits() }
}

fn imu_driver(accel: bool, gyro: bool) -> Driver {
    let channel = |kind: ChannelKind, id: &str| FoundChannel {
        kind,
        id: Some(String::from(id)),
        offset: None,
        sample_rate: None,
        sample_rates_avail: None,
        scale: None,
        scales_avail: None,
    };
    let mut found_accel = Vec::new();
    if accel {
        found_accel.push(channel(ChannelKind::Accel, "accel_x"));
    }
    let mut found_gyro = Vec::new();
    if gyro {
        found_gyro.push(channel(ChannelKind::AnglVel, "anglvel_x"));
    }
    let channels = Channels {
        accel: get_channels_with_type(found_accel, ChannelKind::Accel),
        gyro: get_channels_with_type(found_gyro, ChannelKind::AnglVel),
    };
    Driver::new(Some(channels), None, None, None, None).ok().unwrap()
}

fn imu_device() -> UdevDevice {
    UdevDevice {
        devnode: String::new(),
        sysname: String::from("iio:device0"),
        name: String::from("gyro_3d"),
        id_vendor: 0,
        id_product: 0,
    }
}

fn imu_request() -> DriverRequest {
    driver_request(&imu_device(), &None)
}

fn imu_input(accel: &[i64], gyro: &[i64]) -> PollInput<String> {
    PollInput::Sysfs {
        accel: accel.iter().map(|value| Ok(*value)).collect(),
        gyro: gyro.iter().map(|value| Ok(*value)).collect(),
    }
}

#[test]
fn oxp_source_refuses_other_ids() {
    let error = OxpHid::new(String::from("/dev/hidraw9"), VID, 1, false, false).err().unwrap();
    assert_eq!(error.message(), "Device '/dev/hidraw9' is not an OXP HID controller");
    let error = OxpX1Hid::new(String::from("/dev/hidraw9"), 1, PID).err().unwrap();
    assert_eq!(error.message(), "Device '/dev/hidraw9' is not an OXP HID controller");
}

#[test]
fn oxp_source_translates_polls() {
    let mut source = oxp_source(false, false);
    let mut x1 = OxpX1Hid::new(String::from("/dev/hidraw0"), VID, PID).ok().unwrap();
    for (code, name) in [
        (0x22, GamepadButton::LeftPaddle1),
        (0x23, GamepadButton::RightPaddle1),
        (0x24, GamepadButton::Keyboard),
        (0x21, GamepadButton::Guide),
    ] {
        let expected =
            vec![NativeEvent { capability: button(name), value: InputValue::Bool(true) }];
        assert_eq!(source.poll(&oxp_report(code, 1), 64), expected);
        assert_eq!(x1.poll(&oxp_report(code, 1), 64), expected);
        assert!(source.poll(&oxp_report(code, 1), 64).is_empty());
        assert!(x1.poll(&oxp_report(code, 1), 64).is_empty());
        assert!(source.get_capabilities().contains(&button(name)));
        assert!(x1.get_capabilities().contains(&button(name)));
    }
    assert_eq!(x1.get_capabilities().len(), 4);
}

#[test]
fn oxp_buttons_are_translated() {
    let v = oxp::BinaryInput { pressed: true };
    for (event, name) in [
        (oxp::ButtonEvent::A(v), GamepadButton::South),
        (oxp::ButtonEvent::B(v), GamepadButton::East),
        (oxp::ButtonEvent::X(v), GamepadButton::West),
        (oxp::ButtonEvent::Y(v), GamepadButton::North),
        (oxp::ButtonEvent::LB(v), GamepadButton::LeftBumper),
        (oxp::ButtonEvent::RB(v), GamepadButton::RightBumper),
        (oxp::ButtonEvent::Start(v), GamepadButton::Start),
        (oxp::ButtonEvent::Select(v), GamepadButton::Select),
        (oxp::ButtonEvent::LSClick(v), GamepadButton::LeftStick),
        (oxp::ButtonEvent::RSClick(v), GamepadButton::RightStick),
        (oxp::ButtonEvent::DPadUp(v), GamepadButton::DPadUp),
        (oxp::ButtonEvent::DPadDown(v), GamepadButton::DPadDown),
        (oxp::ButtonEvent::DPadLeft(v), GamepadButton::DPadLeft),
        (oxp::ButtonEvent::DPadRight(v), GamepadButton::DPadRight),
        (oxp::ButtonEvent::M1(v), GamepadButton::LeftPaddle1),
        (oxp::ButtonEvent::M2(v), GamepadButton::RightPaddle1),
        (oxp::ButtonEvent::Keyboard(v), GamepadButton::Keyboard),
        (oxp::ButtonEvent::Guide(v), GamepadButton::Guide),
    ] {
        let native = oxp_hid::translate_event(oxp::Event::Button(event));
        assert_eq!(native.capability, button(name));
        assert_eq!(native.value, InputValue::Bool(true));
        assert!(oxp_source(true, false).get_capabilities().contains(&native.capability));
    }
}

#[test]
fn oxp_sticks_and_triggers_are_translated() {
    let stick = oxp::AxisInput { x: -32768, y: 12 };
    let signed = |raw: i32, inverted: bool| {
        Some(Normalized::Signed { raw, min: -32767, max: 32767, inverted })
    };
    let position = InputValue::Vector2 { x: signed(-32768, false), y: signed(12, true) };
    let native = oxp_hid::translate_axis(oxp::AxisEvent::LStick(stick));
    assert_eq!(native.capability, Capability::Gamepad(Gamepad::Axis(GamepadAxis::LeftStick)));
    assert_eq!(native.value, position);
    let native = oxp_hid::translate_axis(oxp::AxisEvent::RStick(stick));
    assert_eq!(native.capability, Capability::Gamepad(Gamepad::Axis(GamepadAxis::RightStick)));
    assert_eq!(native.value, position);
    let pull = InputValue::Float(Normalized::Unsigned { raw: 200, max: 255 });
    let value = oxp::TriggerInput { value: 200 };
    let native = oxp_hid::translate_trigger(oxp::TriggerEvent::LTrigger(value));
    assert_eq!(
        native.capability,
        Capability::Gamepad(Gamepad::Trigger(GamepadTrigger::LeftTrigger))
    );
    assert_eq!(native.value, pull);
    let native = oxp_hid::translate_trigger(oxp::TriggerEvent::RTrigger(value));
    assert_eq!(
        native.capability,
        Capability::Gamepad(Gamepad::Trigger(GamepadTrigger::RightTrigger))
    );
    let events = vec![
        oxp::Event::Trigger(oxp::TriggerEvent::RTrigger(value)),
        oxp::Event::Axis(oxp::AxisEvent::LStick(stick)),
    ];
    let natives = oxp_hid::translate_events(events);
    assert_eq!(natives.len(), 2);
    assert_eq!(natives[0].value, pull);
    assert_eq!(natives[1].value, position);
}

#[test]
fn x1_buttons_are_translated() {
    let v = oxp::BinaryInput { pressed: false };
    let events = vec![
        oxp::X1Event::GamepadButton(oxp::GamepadButtonEvent::M1(v)),
        oxp::X1Event::GamepadButton(oxp::GamepadButtonEvent::M2(v)),
        oxp::X1Event::GamepadButton(oxp::GamepadButtonEvent::Keyboard(v)),
        oxp::X1Event::GamepadButton(oxp::GamepadButtonEvent::Guide(v)),
    ];
    let natives = oxp_x1_hid::translate_events(events);
    let names = [
        GamepadButton::LeftPaddle1,
        GamepadButton::RightPaddle1,
        GamepadButton::Keyboard,
        GamepadButton::Guide,
    ];
    for (native, name) in natives.iter().zip(names) {
        assert_eq!(
            *native,
            NativeEvent { capability: button(name), value: InputValue::Bool(false) }
        );
    }
    assert_eq!(oxp::X1Event::of(oxp::Event::Button(oxp::ButtonEvent::A(v))), None);
}

#[test]
fn oxp_capabilities_depend_on_the_mode() {
    assert_eq!(
        oxp_source(false, false).get_capabilities(),
        vec![
            button(GamepadButton::LeftPaddle1),
            button(GamepadButton::RightPaddle1),
            button(GamepadButton::Keyboard),
            button(GamepadButton::Guide),
        ]
    );
    let all = oxp_source(true, false).get_capabilities();
    assert_eq!(all.len(), 22);
    assert_eq!(all[0], button(GamepadButton::South));
    assert_eq!(all[18], Capability::Gamepad(Gamepad::Axis(GamepadAxis::LeftStick)));
    assert_eq!(all[21], Capability::Gamepad(Gamepad::Trigger(GamepadTrigger::RightTrigger)));
    assert!(oxp_source(true, false).get_output_capabilities().is_empty());
    assert_eq!(
        oxp_source(false, true).get_output_capabilities(),
        vec![OutputCapability::ForceFeedback]
    );
}

#[test]
fn effects_get_the_smallest_free_id() {
    let mut source = oxp_source(false, true);
    for id in 0..16 {
        assert_eq!(source.upload_effect(rumble(1, 1)), Ok(id));
    }
    let error = source.upload_effect(rumble(1, 1)).unwrap_err();
    assert_eq!(error, UploadError::MaximumUploaded);
    assert_eq!(error.message(), "Maximum FF effects uploaded");
    source.erase_effect(5);
    source.erase_effect(9);
    source.erase_effect(100);
    assert_eq!(source.upload_effect(rumble(2, 2)), Ok(5));
    assert_eq!(source.upload_effect(rumble(2, 2)), Ok(9));
    assert!(source.upload_effect(rumble(2, 2)).is_err());
    assert_eq!(source.ff_evdev_effects.len(), 16);
}

#[test]
fn erase_undoes_upload() {
    let mut source = oxp_source(false, true);
    source.upload_effect(rumble(256, 0)).unwrap();
    let before = source.ff_evdev_effects.clone();
    let id = source.upload_effect(rumble(512, 0)).unwrap();
    source.erase_effect(id);
    assert_eq!(source.ff_evdev_effects, before);
    assert_eq!(source.upload_effect(rumble(512, 0)), Ok(id));
}

#[test]
fn effects_are_played() {
    let mut source = oxp_source(false, true);
    let id = source.upload_effect(rumble(0x1234, 0x4321)).unwrap() as u16;
    assert_eq!(source.write_event(play(0x15, id, 1)), Some(0x43));
    assert_eq!(source.write_event(play(0x15, id, 0)), Some(0));
    source.update_effect(id as i16, rumble(0xffff, 0));
    assert_eq!(source.write_event(play(0x15, id, -1)), Some(0xff));
    source.update_effect(id as i16, FFEffectData { kind: FFEffectKind::Other });
    assert_eq!(source.write_event(play(0x15, id, 1)), None);
    assert_eq!(source.write_event(play(0x15, id, 0)), Some(0));
    source.erase_effect(id as i16);
    assert_eq!(source.write_event(play(0x15, id, 0)), None);
}

#[test]
fn only_force_feedback_events_play_effects() {
    let mut source = oxp_source(false, true);
    source.upload_effect(rumble(0x8000, 0)).unwrap();
    for event_type in [0x00, 0x01, 0x02, 0x03, 0x04, 0x05, 0x11, 0x12, 0x14, 0x16, 0x17, 0x1f, 0x99]
    {
        assert_eq!(source.write_event(play(event_type, 0, 1)), None);
    }
    assert_eq!(source.write_event(play(0x15, 0, 1)), Some(0x80));
    assert_eq!(source.write_event(play(0x15, 1, 1)), None);
    assert_eq!(source.write_event(play(0x15, 0xffff, 1)), None);
}

#[test]
fn update_needs_an_effect() {
    let mut source = oxp_source(false, true);
    source.update_effect(3, rumble(1, 1));
    assert!(source.ff_evdev_effects.is_empty());
}

#[test]
fn rumble_reports_set_the_stronger_motor() {
    let source = oxp_source(false, true);
    let report = |haptics: bool, improved: bool| {
        OutputEvent::DualSense(DualSenseReport {
            use_rumble_not_haptics: haptics,
            enable_improved_rumble_emulation: improved,
            rumble_emulation_left: 10,
            rumble_emulation_right: 20,
        })
    };
    assert_eq!(source.write_event(report(true, false)), Some(20));
    assert_eq!(source.write_event(report(false, true)), Some(20));
    assert_eq!(source.write_event(report(false, false)), None);
    let deck = SteamDeckRumbleReport { left_speed: 0x7fff, right_speed: 0x0100 };
    assert_eq!(source.write_event(OutputEvent::SteamDeckRumble(deck)), Some(0x7f));
    let event = OutputEvent::Rumble { weak_magnitude: 0x0200, strong_magnitude: 0x01ff };
    assert_eq!(source.write_event(event), Some(2));
    assert_eq!(source.write_event(OutputEvent::Uinput), None);
    assert_eq!(source.write_event(OutputEvent::SteamDeckHaptics), None);
}

#[test]
fn rumble_can_be_switched_off() {
    let mut source = oxp_source(false, false);
    source.upload_effect(rumble(0x8000, 0)).unwrap();
    assert_eq!(source.write_event(play(0x15, 0, 1)), None);
    let event = OutputEvent::Rumble { weak_magnitude: 0xffff, strong_magnitude: 0xffff };
    assert_eq!(source.write_event(event), None);
}

#[test]
fn imu_request_comes_from_the_configuration() {
    let row = |value: f64| [float(value), float(0.0), float(1.0)];
    let config = IioConfig {
        mount_matrix: Some(MatrixConfig { x: row(2.0), y: row(3.0), z: row(4.0) }),
        sample_rate: Some(float(100.0)),
    };
    let request = driver_request(&imu_device(), &Some(config));
    assert_eq!(request.id, "iio:device0");
    assert_eq!(request.name, "gyro_3d");
    assert_eq!(request.sample_rate, Some(float(100.0)));
    assert_eq!(
        request.mount_matrix,
        Some(MountMatrix {
            x: (float(2.0), float(0.0), float(1.0)),
            y: (float(3.0), float(0.0), float(1.0)),
            z: (float(4.0), float(0.0), float(1.0)),
        })
    );
    let config = IioConfig { mount_matrix: None, sample_rate: None };
    let request = driver_request(&imu_device(), &Some(config));
    assert_eq!(request.mount_matrix, None);
    assert_eq!(request.sample_rate, None);
    assert_eq!(imu_request().mount_matrix, None);
}

#[test]
fn accel_gyro_capabilities_are_those_of_the_driver() {
    let capabilities = |accel: bool, gyro: bool| {
        AccelGyro3dImu::new(imu_request(), imu_driver(accel, gyro)).get_capabilities()
    };
    let accel = Capability::Accelerometer(Source::Center);
    let gyro = Capability::Gyroscope(Source::Center);
    assert_eq!(capabilities(true, true), vec![accel, gyro]);
    assert_eq!(capabilities(true, false), vec![accel]);
    assert_eq!(capabilities(false, true), vec![gyro]);
    assert_eq!(capabilities(false, false), vec![]);
    assert_eq!(
        BmiImu::new(imu_request(), imu_driver(false, false)).get_capabilities(),
        vec![Capability::Accelerometer(Source::Center), Capability::Gyroscope(Source::Center)]
    );
}

#[test]
fn suspended_source_is_silent_until_resume() {
    let mut source = AccelGyro3dImu::new(imu_request(), imu_driver(true, true));
    assert_eq!(source.poll(imu_input(&[1], &[2]), 0).unwrap().len(), 2);
    assert!(source.imu.resume_request().is_none());
    source.on_suspend();
    assert!(source.poll(imu_input(&[1], &[2]), 0).unwrap().is_empty());
    let request = source.imu.resume_request().unwrap();
    assert_eq!(request.id, "iio:device0");
    assert_eq!(request.name, "gyro_3d");
    source.on_resume(None);
    assert!(source.imu.driver.is_none());
    source.on_resume(Some(imu_driver(true, true)));
    assert_eq!(source.poll(imu_input(&[1], &[2]), 0).unwrap().len(), 2);
    assert_eq!(source.get_capabilities().len(), 2);
}

#[test]
fn filter_survives_a_suspend() {
    let mut source = BmiImu::new(imu_request(), imu_driver(true, true));
    source.on_suspend();
    let mut set = CapabilitySet::new();
    set.insert(Capability::Accelerometer(Source::Center));
    source.update_event_filter(set);
    source.on_resume(Some(imu_driver(true, true)));
    let events = source.poll(imu_input(&[], &[2]), 0).unwrap();
    assert_eq!(events.len(), 1);
    assert_eq!(events[0].capability, Capability::Gyroscope(Source::Center));
    source.update_event_filter(CapabilitySet::new());
    assert_eq!(source.poll(imu_input(&[1], &[2]), 0).unwrap().len(), 2);
}

#[test]
fn second_resume_keeps_the_driver() {
    let mut source = BmiImu::new(imu_request(), imu_driver(true, true));
    source.on_resume(Some(imu_driver(false, true)));
    assert!(source.imu.driver.as_ref().unwrap().has_accel());
}

#[test]
fn default_filter_is_empty_without_a_driver() {
    let modules = || -> Result<Vec<Result<String, String>>, String> {
        Ok(vec![Ok(String::from("hid_lenovo_go 1"))])
    };
    let mut source = AccelGyro3dImu::new(imu_request(), imu_driver(true, true));
    assert_eq!(source.get_default_event_filter(modules()).unwrap().len(), 2);
    source.on_suspend();
    assert_eq!(source.get_default_event_filter(modules()).unwrap().len(), 0);
    let failed: Result<Vec<Result<String, String>>, String> = Err(String::from("io"));
    assert!(source.get_default_event_filter(failed).is_ok());
    let source = BmiImu::new(imu_request(), imu_driver(true, true));
    assert_eq!(source.get_default_event_filter(modules()).unwrap().len(), 2);
    assert_eq!(filter_error("x"), "Failed to get default event filter: x");
}

#[test]
fn sensor_events_are_translated() {
    let axis = |count: i64| AxisValue {
        mx: float(1.0),
        my: float(0.0),
        mz: float(0.0),
        x: Some(Reading { count, scale: float(0.5) }),
        y: None,
        z: None,
    };
    let data = AxisData { roll: axis(1), pitch: axis(2), yaw: axis(3) };
    let vector = |conversion: Conversion| {
        let value = |count: i64| Some(Converted { value: axis(count), conversion });
        InputValue::Vector3 { x: value(1), y: value(2), z: value(3) }
    };
    let events = || vec![Event::Accelerometer(data, 5), Event::Gyro(data, 5)];
    assert_eq!(
        accel_gyro_3d::translate_events(events()),
        vec![
            NativeEvent {
                capability: Capability::Accelerometer(Source::Center),
                value: vector(Conversion::Units { numerator: 6125, denominator: 10_000_000 }),
            },
            NativeEvent {
                capability: Capability::Gyroscope(Source::Center),
                value: vector(Conversion::DegreeUnits { numerator: 625, denominator: 10_000 }),
            },
        ]
    );
    assert_eq!(
        bmi_imu::translate_events(events()),
        vec![
            NativeEvent {
                capability: Capability::Accelerometer(Source::Center),
                value: vector(Conversion::Unchanged),
            },
            NativeEvent {
                capability: Capability::Gyroscope(Source::Center),
                value: vector(Conversion::DegreesTimes { times: 12 }),
            },
        ]
    );
}

#[test]
fn swapped_motors_send_the_same() {
    let source = oxp_source(false, true);
    for (left, right) in [(0, 0), (1, 255), (200, 100)] {
        assert_eq!(OxpHid::set_rumble(left, right), left.max(right));
        assert_eq!(OxpHid::set_rumble(left, right), OxpHid::set_rumble(right, left));
    }
    let send = |weak_magnitude: u16, strong_magnitude: u16| {
        source.write_event(OutputEvent::Rumble { weak_magnitude, strong_magnitude })
    };
    assert_eq!(send(0x1234, 0x9000), Some(0x90));
    assert_eq!(send(0x9000, 0x1234), Some(0x90));
}

#[test]
fn announced_capabilities_can_be_filtered() {
    let mut source = BmiImu::new(imu_request(), imu_driver(true, true));
    let mut set = CapabilitySet::new();
    for capability in source.get_capabilities() {
        set.insert(capability);
    }
    source.update_event_filter(set);
    assert!(source.poll(imu_input(&[], &[]), 0).unwrap().is_empty());
}
