use inputplumber::drivers::{msi_claw, rog_ally};
use inputplumber::input::source::hidraw::rog_ally::RogAlly;
use inputplumber::udev::device::{Attribute, UdevDevice};

fn udevice(id_vendor: u16, id_product: u16) -> UdevDevice {
    UdevDevice {
        devnode: String::from("/dev/hidraw1"),
        sysname: String::from("hidraw1"),
        name: String::from("gamepad"),
        id_vendor,
        id_product,
    }
}

fn pairs(list: &[Attribute]) -> Vec<(&str, &str)> {
    list.iter().map(|a| (a.name.as_str(), a.value.as_str())).collect()
}

fn ally_parent(driver: Option<&str>) -> Option<rog_ally::driver::Parent> {
    Some(rog_ally::driver::Parent { driver: driver.map(String::from) })
}

fn ally_error(
    device: UdevDevice,
    parent: Option<rog_ally::driver::Parent>,
    if_num: &str,
) -> String {
    match rog_ally::driver::Driver::new(device, parent, if_num) {
        Ok(_) => panic!("accepted"),
        Err(error) => error.message(),
    }
}

#[test]
fn claw_button_interface_sets_remaps() {
    let driver = msi_claw::driver::Driver::new(&udevice(0x0db0, 0x1901), "01").unwrap();
    assert_eq!(
        pairs(&driver.setup()),
        vec![("m1_remap", "KEY_INSERT"), ("m2_remap", "KEY_DELETE")]
    );
    assert_eq!(driver.set_mode(), msi_claw::driver::ModeStep::Done);
    assert!(!driver.get_mode());
    assert_eq!(driver.poll::<u8, String>(8, Ok(7)), Ok(None));
}

#[test]
fn claw_report_interface_polls() {
    let driver = msi_claw::driver::Driver::new(&udevice(0x0db0, 0x1901), "02").unwrap();
    assert!(driver.setup().is_empty());
    assert!(driver.get_mode());
    assert_eq!(driver.poll::<u8, String>(0, Ok(7)), Ok(None));
    assert_eq!(driver.poll::<u8, String>(8, Ok(7)), Ok(Some(7)));
    assert_eq!(
        driver.poll::<u8, String>(8, Err(String::from("bad"))),
        Err(String::from("bad"))
    );
}

#[test]
fn claw_refuses_other_devices() {
    for (vendor, product) in [(0x0db0, 0x1902), (0x0db1, 0x1901)] {
        let error = msi_claw::driver::Driver::new(&udevice(vendor, product), "02").unwrap_err();
        assert_eq!(error.message(), "'/dev/hidraw1' is not a MSI Claw controller");
        assert!(msi_claw::driver::check_ids(&udevice(vendor, product)).is_err());
    }
    let error = msi_claw::driver::Driver::new(&udevice(0x0db0, 0x1901), "03").unwrap_err();
    assert_eq!(error.message(), "Invalid interface number 03");
}

fn claw_mode_writes(first_report: usize) -> usize {
    let driver = msi_claw::driver::Driver::new(&udevice(0x0db0, 0x1901), "02").unwrap();
    let mut step = driver.set_mode();
    let mut writes = 0;
    let mut polls = 0;
    loop {
        let mut reported = false;
        match step {
            msi_claw::driver::ModeStep::Write { .. } => writes += 1,
            msi_claw::driver::ModeStep::Wait { .. } => {}
            msi_claw::driver::ModeStep::Poll { .. } => {
                reported = polls == first_report;
                polls += 1;
            }
            msi_claw::driver::ModeStep::Done => return writes,
        }
        step = step.next(reported);
    }
}

#[test]
fn claw_mode_is_written_until_a_report() {
    assert_eq!(claw_mode_writes(0), 1);
    assert_eq!(claw_mode_writes(2), 3);
    assert_eq!(claw_mode_writes(7), 8);
    assert_eq!(claw_mode_writes(100), 8);
}

#[test]
fn ally_gamepad_interface_is_set_up() {
    for driver in ["asus_rog_ally", "asus_ally_hid"] {
        let (_, setup) =
            rog_ally::driver::Driver::new(udevice(0x0b05, 0x1abe), ally_parent(Some(driver)), "02")
                .ok()
                .unwrap();
        assert_eq!(
            pairs(&setup.device),
            vec![("btn_m1/remap", "KB_F15"), ("btn_m2/remap", "KB_F14"), ("gamepad_mode", "1")]
        );
        assert_eq!(pairs(&setup.parent), vec![("apply_all", "1")]);
    }
}

#[test]
fn ally_x_menu_interface_is_set_up() {
    let (_, setup) = rog_ally::driver::Driver::new(
        udevice(0x0b05, 0x1b4c),
        ally_parent(Some("asus_rog_ally")),
        "05",
    )
    .ok()
    .unwrap();
    assert_eq!(pairs(&setup.device), vec![("qam_mode", "0")]);
    assert!(setup.parent.is_empty());
}

#[test]
fn ally_refuses_other_devices() {
    let good = || udevice(0x0b05, 0x1abe);
    let parent = || ally_parent(Some("asus_rog_ally"));
    assert_eq!(
        ally_error(udevice(0x0b05, 0x1abf), parent(), "02"),
        "'/dev/hidraw1' is not an ROG Ally controller"
    );
    assert_eq!(
        ally_error(udevice(0x0b06, 0x1abe), None, "02"),
        "'/dev/hidraw1' is not an ROG Ally controller"
    );
    assert_eq!(ally_error(good(), None, "02"), "Failed to get device parent");
    assert_eq!(ally_error(good(), ally_parent(None), "02"), "Failed to identify device driver");
    assert_eq!(
        ally_error(good(), ally_parent(Some("asus")), "02"),
        "Device is not using the asus_rog_ally driver."
    );
    assert_eq!(ally_error(good(), parent(), "03"), "Invalid interface number 03 provided.");
}

#[test]
fn ally_resume_repeats_remaps_only() {
    let (mut source, _) =
        RogAlly::new(udevice(0x0b05, 0x1abe), ally_parent(Some("asus_rog_ally")), "02")
            .ok()
            .unwrap();
    assert_eq!(
        pairs(&source.on_resume(Some("02"))),
        vec![("btn_m1/remap", "KB_F15"), ("btn_m2/remap", "KB_F14")]
    );
    assert!(source.on_resume(Some("05")).is_empty());
    assert!(source.on_resume(None).is_empty());
    assert!(source.poll().is_empty());
    assert!(source.get_capabilities().is_empty());
}
