use inputplumber::udev::device::Device;
use inputplumber::udev::rules::Stage;
use inputplumber::udev::unhide::{
    reload_all, reload_children, restore_commands, restore_hidden_input_permissions,
    restore_hidden_nodes_in_dir, NodeEntry, UnhideStep,
};
use inputplumber::udev::{
    discover_devices, get_device, hide_device, locate_tool, rule_path, tool_places, unhide_all,
    unhide_device, DescriptionError, HideError, HideFlag, Tool, ToolSearch, WhichOutput,
};

const INFO: &str = "P: /devices/virtual/input/input12/event7\n\
M: event7\n\
R: 7\n\
U: input\n\
T: disk\n\
D: c 13:71\n\
I: 3\n\
N: input/event7\n\
L: 5\n\
S: input/by-path/one\n\
S: input/by-path/two\n\
Q: 9\n\
V: xpad\n\
E: DEVNAME=/dev/input/event7\n\
E: KEY=a=b\n\
E: broken\n\
X: unknown\n";

fn found(place: Option<usize>) -> ToolSearch {
    let mut present = [false; 3];
    if let Some(place) = place {
        present[place] = true;
    }
    ToolSearch { present, which: None }
}

fn asked(success: bool, stdout: &[u8]) -> ToolSearch {
    ToolSearch {
        present: [false; 3],
        which: Some(WhichOutput { success, stdout: stdout.to_vec() }),
    }
}

fn device(name: &str, subsystem: &str) -> Device {
    let info = format!("M: {name}\nU: {subsystem}\n");
    get_device(info.into_bytes()).ok().unwrap()
}

fn hide_error(
    parent: Option<&str>,
    match_rule: Option<&str>,
    flags: &[HideFlag],
    chmod: ToolSearch,
    mv: ToolSearch,
) -> HideError {
    match hide_device(
        &device("event7", "input"),
        parent.map(String::from),
        match_rule.map(String::from),
        flags,
        &chmod,
        &mv,
    ) {
        Ok(_) => panic!("hidden"),
        Err(error) => error,
    }
}

fn show(step: &UnhideStep) -> String {
    match step {
        UnhideStep::RemoveRule(path) => format!("rm {path}"),
        UnhideStep::RestoreNode { from, to } => format!("mv {from} {to}"),
        UnhideStep::ReloadChildren(parent) => format!("reload {parent}"),
        UnhideStep::ReloadAll => String::from("reload"),
        UnhideStep::RestorePermissions => String::from("restore"),
    }
}

fn shown(steps: &[UnhideStep]) -> Vec<String> {
    steps.iter().map(show).collect()
}

#[test]
fn description_is_read() {
    let device = get_device(INFO.as_bytes().to_vec()).ok().unwrap();
    assert_eq!(device.path, "/devices/virtual/input/input12/event7");
    assert_eq!(device.name, "event7");
    assert_eq!(device.number, 7);
    assert_eq!(device.subsystem, "input");
    assert_eq!(device.device_type, "disk");
    assert_eq!(device.node, "c 13:71");
    assert_eq!(device.network_index, "3");
    assert_eq!(device.node_name, "input/event7");
    assert_eq!(device.symlink_priority, 5);
    assert_eq!(device.symlink, vec!["input/by-path/one", "input/by-path/two"]);
    assert_eq!(device.sequence_num, 9);
    assert_eq!(device.driver, "xpad");
    assert_eq!(device.properties.len(), 2);
    assert_eq!(device.properties.get("DEVNAME").unwrap(), "/dev/input/event7");
    assert_eq!(device.properties.get("KEY").unwrap(), "a=b");
    assert!(device.properties.get("broken").is_none());
}

#[test]
fn empty_description_gives_an_unknown_device() {
    let device = get_device(Vec::new()).ok().unwrap();
    assert_eq!(device.name, "");
    assert_eq!(device.number, 0);
    assert!(device.properties.is_empty());
}

#[test]
fn later_lines_win_and_bad_numbers_are_zero() {
    let info = b"M: one\nM: two\nR: 4\nR: many\nL: 4294967296\nE: A=1\nE: A=2".to_vec();
    let device = get_device(info).ok().unwrap();
    assert_eq!(device.name, "two");
    assert_eq!(device.number, 0);
    assert_eq!(device.symlink_priority, 0);
    assert_eq!(device.properties.get("A").unwrap(), "2");
}

#[test]
fn tags_inside_a_line_are_dropped_too() {
    let device = get_device(b"M: aM: b\n M: c".to_vec()).ok().unwrap();
    assert_eq!(device.name, "ab");
}

#[test]
fn description_must_be_utf8() {
    assert_eq!(get_device(vec![b'M', 0xff]).err(), Some(DescriptionError::NotUtf8));
    let device = get_device("M: \u{fc}\n".as_bytes().to_vec()).ok().unwrap();
    assert_eq!(device.name, "\u{fc}");
}

#[test]
fn tools_are_looked_for_in_order() {
    assert_eq!(
        tool_places(Tool::Chmod),
        vec!["/bin/chmod", "/usr/bin/chmod", "/run/current-system/sw/bin/chmod"]
    );
    let all = ToolSearch { present: [true; 3], which: None };
    assert_eq!(locate_tool(Tool::Mv, &all), Ok(String::from("/bin/mv")));
    assert_eq!(locate_tool(Tool::Mv, &found(Some(1))), Ok(String::from("/usr/bin/mv")));
    assert_eq!(
        locate_tool(Tool::Mv, &found(Some(2))),
        Ok(String::from("/run/current-system/sw/bin/mv"))
    );
    assert_eq!(
        locate_tool(Tool::Mv, &asked(true, b" /opt/bin/mv\n")),
        Ok(String::from("/opt/bin/mv"))
    );
    assert_eq!(locate_tool(Tool::Mv, &asked(false, b"")), Err(HideError::ToolNotFound(Tool::Mv)));
    assert_eq!(
        locate_tool(Tool::Chmod, &asked(true, &[0xc3, 0x28])),
        Err(HideError::ToolPathNotUtf8(Tool::Chmod))
    );
}

#[test]
fn hide_rules_are_written() {
    let flags = [HideFlag::ChangePermissions, HideFlag::MoveSourceDevice];
    let plan = hide_device(
        &device("event7", "input"),
        Some(String::from("/devices/parent")),
        Some(String::from("ATTRS{name}==\"pad\"")),
        &flags,
        &found(Some(0)),
        &found(Some(1)),
    )
    .ok()
    .unwrap();
    assert_eq!(plan.parent, "/devices/parent");
    assert_eq!(
        plan.early.path,
        "/run/udev/rules.d/50-inputplumber-hide-event7-early.rules"
    );
    assert_eq!(plan.late.path, "/run/udev/rules.d/96-inputplumber-hide-event7-late.rules");
    assert_eq!(
        plan.early.content,
        r#"# Hides devices stemming from event7
# Managed by InputPlumber, this file will be autoremoved during configuration changes.
ATTRS{name}=="pad", GOTO="inputplumber_valid"
GOTO="inputplumber_end"
LABEL="inputplumber_valid"
KERNEL=="js[0-9]*|event[0-9]*", SUBSYSTEM=="input", MODE:="0000", GROUP:="root", RUN+="/bin/chmod 000 /dev/input/%k", SYMLINK+="inputplumber/by-hidden/%k"
KERNEL=="hidraw[0-9]*", SUBSYSTEM=="input", MODE:="0000", GROUP:="root", RUN+="/bin/chmod 000 /dev/%k", SYMLINK+="inputplumber/by-hidden/%k"

KERNEL=="js[0-9]*|event[0-9]*", SUBSYSTEM=="input", RUN+="/usr/bin/mv /dev/input/%k /dev/inputplumber/sources/%k"
KERNEL=="hidraw[0-9]*", SUBSYSTEM=="input", RUN+="/usr/bin/mv /dev/%k /dev/inputplumber/sources/%k"

LABEL="inputplumber_end"
"#
    );
    assert_eq!(
        plan.late.content,
        r#"# Hides devices stemming from event7
# Managed by InputPlumber, this file will be autoremoved during configuration changes.
ATTRS{name}=="pad", GOTO="inputplumber_valid"
GOTO="inputplumber_end"
LABEL="inputplumber_valid"
KERNEL=="js[0-9]*|event[0-9]*", SUBSYSTEM=="input", MODE="000", GROUP="root", TAG-="uaccess", RUN+="/bin/chmod 000 /dev/input/%k"
KERNEL=="hidraw[0-9]*", SUBSYSTEM=="input", MODE="000", GROUP="root", TAG-="uaccess", RUN+="/bin/chmod 000 /dev/%k"

KERNEL=="js[0-9]*|event[0-9]*", SUBSYSTEM=="input", RUN+="/usr/bin/mv /dev/input/%k /dev/inputplumber/sources/%k"
KERNEL=="hidraw[0-9]*", SUBSYSTEM=="input", RUN+="/usr/bin/mv /dev/%k /dev/inputplumber/sources/%k"

LABEL="inputplumber_end"
"#
    );
}

#[test]
fn hiding_without_flags_needs_no_tools() {
    let plan = hide_device(
        &device("hidraw0", "hidraw"),
        Some(String::from("/p")),
        Some(String::from("M")),
        &[],
        &asked(false, b""),
        &asked(false, b""),
    )
    .ok()
    .unwrap();
    assert_eq!(
        plan.early.content,
        "# Hides devices stemming from hidraw0\n\
         # Managed by InputPlumber, this file will be autoremoved during configuration changes.\n\
         M, GOTO=\"inputplumber_valid\"\n\
         GOTO=\"inputplumber_end\"\n\
         LABEL=\"inputplumber_valid\"\n\n\n\
         LABEL=\"inputplumber_end\"\n"
    );
    assert_eq!(plan.early.content, plan.late.content);
}

#[test]
fn hiding_can_fail() {
    let both = [HideFlag::MoveSourceDevice, HideFlag::ChangePermissions];
    let error = hide_error(None, None, &both, asked(false, b""), asked(false, b""));
    assert_eq!(error, HideError::NoParent);
    assert_eq!(error.message(), "Unable to determine parent for device");
    let error = hide_error(Some("/p"), None, &both, asked(false, b""), asked(false, b""));
    assert_eq!(error, HideError::NoMatchRule);
    assert_eq!(error.message(), "Unable to create match rule for device");
    let error = hide_error(Some("/p"), Some("M"), &both, asked(false, b""), asked(false, b""));
    assert_eq!(error, HideError::ToolNotFound(Tool::Chmod));
    assert_eq!(error.message(), "Unable to determine chmod command location");
    let error = hide_error(Some("/p"), Some("M"), &both, found(Some(0)), asked(false, b""));
    assert_eq!(error, HideError::ToolNotFound(Tool::Mv));
    assert_eq!(error.message(), "Unable to determine mv command location");
    let error = hide_error(Some("/p"), Some("M"), &both, asked(true, &[0xff]), found(Some(0)));
    assert_eq!(error, HideError::ToolPathNotUtf8(Tool::Chmod));
    assert_eq!(error.message(), "The location of the chmod command is not UTF-8");
}

#[test]
fn device_is_given_back() {
    let steps = unhide_device(Some("js0"), Some("/devices/parent"), true);
    assert_eq!(
        shown(&steps),
        vec![
            "rm /run/udev/rules.d/50-inputplumber-hide-js0-early.rules",
            "rm /run/udev/rules.d/96-inputplumber-hide-js0-late.rules",
            "mv /dev/inputplumber/sources/js0 /dev/input/js0",
            "reload /devices/parent",
            "restore",
        ]
    );
    assert_eq!(shown(&steps)[0], format!("rm {}", rule_path(Stage::Early, "js0")));
    let steps = unhide_device(Some("hidraw2"), None, true);
    assert_eq!(shown(&steps)[2], "mv /dev/inputplumber/sources/hidraw2 /dev/hidraw2");
    assert_eq!(steps.len(), 4);
    assert_eq!(unhide_device(Some("event1"), Some("/p"), false).len(), 4);
    assert_eq!(shown(&unhide_device(None, None, false)), vec!["restore"]);
}

#[test]
fn all_devices_are_given_back() {
    let files = vec![
        String::from("50-inputplumber-hide-event7-early.rules"),
        String::from("99-other.rules"),
        String::from("96-inputplumber-hide-event7-late.rules"),
    ];
    let nodes = vec![String::from("event7"), String::from("hidraw1")];
    assert_eq!(
        shown(&unhide_all(&files, &nodes)),
        vec![
            "rm /run/udev/rules.d/50-inputplumber-hide-event7-early.rules",
            "rm /run/udev/rules.d/96-inputplumber-hide-event7-late.rules",
            "mv /dev/inputplumber/sources/event7 /dev/input/event7",
            "mv /dev/inputplumber/sources/hidraw1 /dev/hidraw1",
            "reload",
            "restore",
        ]
    );
    assert_eq!(shown(&unhide_all(&Vec::new(), &Vec::new())), vec!["reload", "restore"]);
}

fn node(name: &str, mode: Option<u32>) -> NodeEntry {
    NodeEntry { name: String::from(name), mode }
}

#[test]
fn hidden_nodes_are_found() {
    assert_eq!(restore_hidden_input_permissions(), vec!["/dev/input", "/dev"]);
    let entries = vec![
        node("event0", Some(0o20000)),
        node("event1", Some(0o20660)),
        node("js0", Some(0)),
        node("hidraw0", Some(0)),
        node("mouse0", Some(0)),
        node("event2", None),
    ];
    assert_eq!(
        restore_hidden_nodes_in_dir("/dev/input", &entries),
        vec!["/dev/input/event0", "/dev/input/js0"]
    );
    assert_eq!(
        restore_hidden_nodes_in_dir("/dev", &entries),
        vec!["/dev/event0", "/dev/js0", "/dev/hidraw0"]
    );
}

#[test]
fn restored_node_is_not_hidden_again() {
    let entries = vec![node("event0", Some(0o20000 | 0o660))];
    assert!(restore_hidden_nodes_in_dir("/dev/input", &entries).is_empty());
}

#[test]
fn commands_are_listed() {
    assert_eq!(
        restore_commands("/dev/input/event0"),
        vec![vec!["chgrp", "input", "/dev/input/event0"], vec!["setfacl", "-b", "/dev/input/event0"]]
    );
    assert_eq!(
        reload_children("/devices/p"),
        vec![
            vec!["udevadm", "control", "--reload-rules"],
            vec!["udevadm", "trigger", "--action", "remove", "-b", "/devices/p"],
            vec!["udevadm", "trigger", "--action", "add", "-b", "/devices/p"],
        ]
    );
    assert_eq!(
        reload_all(),
        vec![vec!["udevadm", "control", "--reload-rules"], vec!["udevadm", "trigger"]]
    );
}

#[test]
fn devices_with_a_node_are_discovered() {
    let found = vec![
        (1, Some(String::from("/dev/input/event0"))),
        (2, None),
        (3, Some(String::from("/dev/input/event1"))),
    ];
    assert_eq!(discover_devices(found), vec![1, 3]);
}

#[test]
fn other_devices_stay_hidden() {
    let steps = shown(&unhide_device(Some("event1"), None, true));
    for stage in [Stage::Early, Stage::Late] {
        assert!(steps.contains(&format!("rm {}", rule_path(stage, "event1"))));
        assert!(!steps.contains(&format!("rm {}", rule_path(stage, "event10"))));
    }
    assert!(!steps.iter().any(|step| step.starts_with("mv /dev/inputplumber/sources/event10 ")));
}
