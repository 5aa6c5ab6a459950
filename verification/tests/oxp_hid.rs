use inputplumber::drivers::oxp_hid::driver::{gen_cmd, Driver, InitAction, InitStep, PID, VID};
use inputplumber::drivers::oxp_hid::event::{BinaryInput, ButtonEvent, Event};

fn new_driver() -> Driver {
    Driver::new(String::from("/dev/hidraw3"), VID, PID).unwrap()
}

fn report(button: u8, state: u8) -> [u8; 64] {
    let mut packet = [0u8; 64];
    packet[0] = 0xb2;
    packet[1] = 0x3f;
    packet[6] = button;
    packet[12] = state;
    packet[62] = 0x3f;
    packet[63] = 0xb2;
    packet
}

fn m1(pressed: bool) -> Event {
    Event::Button(ButtonEvent::M1(BinaryInput { pressed }))
}

/// Runs an initialization against a device that replies to reads as told, and gives the packets,
/// the pauses and the number of reads.
fn run_init(driver: &mut Driver, replies: &[usize]) -> (Vec<[u8; 64]>, Vec<u64>, usize) {
    let mut packets = Vec::new();
    let mut pauses = Vec::new();
    let mut reads = 0;
    let mut step = driver.start();
    loop {
        let mut bytes_read = 0;
        match step.action() {
            InitAction::Write(packet) => packets.push(packet),
            InitAction::Sleep(millis) => pauses.push(millis),
            InitAction::Read(timeout) => {
                assert_eq!(timeout, 50);
                bytes_read = replies.get(reads).copied().unwrap_or(0);
                reads += 1;
            }
            InitAction::Finished => return (packets, pauses, reads),
        }
        step = driver.initialize(step, bytes_read);
    }
}

#[test]
fn command_is_framed() {
    let packet = gen_cmd(0xb2, &[0x03, 0x01, 0x02]);
    assert_eq!(packet[..7], [0xb2, 0x3f, 0x01, 0x03, 0x01, 0x02, 0x00]);
    assert_eq!(packet[62..], [0x3f, 0xb2]);
    assert!(packet[7..62].iter().all(|byte| *byte == 0));
}

#[test]
fn long_command_is_cut_off() {
    let packet = gen_cmd(0x11, &[0xaa; 80]);
    assert_eq!(packet[..3], [0x11, 0x3f, 0x01]);
    assert!(packet[3..62].iter().all(|byte| *byte == 0xaa));
    assert_eq!(packet[62..], [0x3f, 0x11]);
}

#[test]
fn empty_command_is_padded() {
    let packet = gen_cmd(0xb4, &[]);
    assert_eq!(packet[..4], [0xb4, 0x3f, 0x01, 0x00]);
    assert_eq!(packet[62..], [0x3f, 0xb4]);
}

#[test]
fn initialization_writes_four_packets() {
    let mut driver = new_driver();
    let (packets, pauses, reads) = run_init(&mut driver, &[]);
    assert!(driver.initialized);
    assert_eq!(packets.len(), 4);
    assert_eq!(pauses, vec![200, 100]);
    assert_eq!(reads, 2);
    assert_eq!(
        packets[0][..14],
        [0xb4, 0x3f, 0x01, 0x02, 0x38, 0x20, 0x01, 0x01, 0x01, 0x01, 0x01, 0x00, 0x00, 0x00]
    );
    assert_eq!(packets[0][56..], [0x09, 0x01, 0x09, 0x00, 0x00, 0x00, 0x3f, 0xb4]);
    assert_eq!(packets[1][..9], [0xb4, 0x3f, 0x01, 0x02, 0x38, 0x20, 0x02, 0x01, 0x0a]);
    assert_eq!(packets[2][..7], [0xb2, 0x3f, 0x01, 0x03, 0x01, 0x02, 0x00]);
    assert_eq!(packets[3][..7], [0xb2, 0x3f, 0x01, 0x00, 0x01, 0x02, 0x00]);
}

#[test]
fn second_page_maps_paddles_to_keys() {
    let mut driver = new_driver();
    let (packets, _, _) = run_init(&mut driver, &[]);
    assert_eq!(
        packets[1][50..62],
        [0x22, 0x02, 0x01, 0x67, 0x00, 0x00, 0x23, 0x02, 0x01, 0x66, 0x00, 0x00]
    );
}

#[test]
fn drains_end_at_the_first_empty_read() {
    let mut driver = new_driver();
    let (packets, _, reads) = run_init(&mut driver, &[64, 64, 0, 64, 0]);
    assert_eq!(packets.len(), 4);
    assert_eq!(reads, 5);
}

#[test]
fn drains_end_after_ten_reads() {
    let mut driver = new_driver();
    let (packets, _, reads) = run_init(&mut driver, &[64; 40]);
    assert_eq!(packets.len(), 4);
    assert_eq!(reads, 20);
}

#[test]
fn initialized_driver_has_nothing_to_do() {
    let mut driver = new_driver();
    assert_eq!(driver.start(), InitStep::MapFirstPage);
    run_init(&mut driver, &[]);
    assert_eq!(driver.start(), InitStep::Done);
    assert!(matches!(driver.start().action(), InitAction::Finished));
}

#[test]
fn other_ids_are_refused() {
    for (vendor, product) in [(VID, 0x0001), (0x0001, PID)] {
        let error = match Driver::new(String::from("/dev/hidraw3"), vendor, product) {
            Ok(_) => panic!("accepted"),
            Err(error) => error,
        };
        assert_eq!(error.message(), "Device '/dev/hidraw3' is not an OXP HID controller");
    }
}

#[test]
fn buttons_are_reported() {
    let mut driver = new_driver();
    let expected = [
        (0x22, ButtonEvent::M1(BinaryInput { pressed: true })),
        (0x23, ButtonEvent::M2(BinaryInput { pressed: true })),
        (0x24, ButtonEvent::Keyboard(BinaryInput { pressed: true })),
        (0x21, ButtonEvent::Guide(BinaryInput { pressed: true })),
    ];
    for (code, event) in expected {
        assert_eq!(driver.poll(&report(code, 1), 64), vec![Event::Button(event)]);
    }
}

#[test]
fn reports_are_debounced() {
    let mut driver = new_driver();
    assert_eq!(driver.poll(&report(0x22, 0), 64), vec![]);
    assert_eq!(driver.poll(&report(0x22, 1), 64), vec![m1(true)]);
    assert_eq!(driver.poll(&report(0x22, 1), 64), vec![]);
    assert_eq!(driver.poll(&report(0x23, 1), 64).len(), 1);
    assert_eq!(driver.poll(&report(0x22, 2), 64), vec![m1(false)]);
    assert_eq!(driver.poll(&report(0x22, 0), 64), vec![]);
    assert_eq!(driver.poll(&report(0x22, 1), 64), vec![m1(true)]);
}

#[test]
fn other_reports_are_ignored() {
    let mut driver = new_driver();
    assert_eq!(driver.poll(&report(0x22, 1), 63), vec![]);
    assert_eq!(driver.poll(&report(0x00, 1), 64), vec![]);
    assert_eq!(driver.poll(&report(0x20, 1), 64), vec![]);
    assert_eq!(driver.poll(&report(0x25, 1), 64), vec![]);
    let mut other = report(0x22, 1);
    other[0] = 0xb4;
    assert_eq!(driver.poll(&other, 64), vec![]);
    let mut open = report(0x22, 1);
    open[1] = 0;
    assert_eq!(driver.poll(&open, 64), vec![]);
    let mut unclosed = report(0x22, 1);
    unclosed[62] = 0;
    assert_eq!(driver.poll(&unclosed, 64), vec![]);
    assert_eq!(driver.poll(&report(0x22, 1), 64), vec![m1(true)]);
}

#[test]
fn events_lead_to_the_state() {
    let reports = [(0x22, 1), (0x22, 1), (0x23, 1), (0x22, 0), (0x24, 1), (0x23, 1), (0x22, 1)];
    let mut driver = new_driver();
    let mut changed = Vec::new();
    for (button, state) in reports {
        if !driver.poll(&report(button, state), 64).is_empty() {
            changed.push((button, state));
        }
    }
    assert_eq!(changed, vec![(0x22, 1), (0x23, 1), (0x22, 0), (0x24, 1), (0x22, 1)]);
    let mut replayed = new_driver();
    for (button, state) in changed {
        assert_eq!(replayed.poll(&report(button, state), 64).len(), 1);
    }
    assert_eq!(replayed.btn_state, driver.btn_state);
}

#[test]
fn each_drain_has_its_own_bound() {
    let mut driver = new_driver();
    let mut step = driver.start();
    let mut counts = vec![0];
    loop {
        let mut bytes_read = 0;
        match step.action() {
            InitAction::Write(_) => counts.push(0),
            InitAction::Sleep(_) => {}
            InitAction::Read(_) => {
                *counts.last_mut().unwrap() += 1;
                bytes_read = 64;
            }
            InitAction::Finished => break,
        }
        step = driver.initialize(step, bytes_read);
    }
    assert_eq!(counts, vec![0, 0, 0, 10, 10]);
}

#[test]
fn first_event_of_a_released_button_is_a_press() {
    for code in [0x21, 0x22, 0x23, 0x24] {
        let mut driver = new_driver();
        assert!(driver.poll(&report(code, 0), 64).is_empty());
        let events = driver.poll(&report(code, 1), 64);
        assert_eq!(events.len(), 1);
        assert!(driver.btn_state[code as usize]);
    }
}
