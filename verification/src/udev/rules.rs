//! The text of the udev rules that hide a device.

use vstd::prelude::*;

verus! {

/// Picks out joystick and event nodes of a subsystem.
pub const INPUT_NODES: &'static str = "KERNEL==\"js[0-9]*|event[0-9]*\", SUBSYSTEM==\"";

/// Picks out hidraw nodes of a subsystem.
pub const HIDRAW_NODES: &'static str = "KERNEL==\"hidraw[0-9]*\", SUBSYSTEM==\"";

pub const EARLY_CHMOD: &'static str = "\", MODE:=\"0000\", GROUP:=\"root\", RUN+=\"";

pub const EARLY_CHMOD_INPUT: &'static str =
    " 000 /dev/input/%k\", SYMLINK+=\"inputplumber/by-hidden/%k\"\n";

pub const EARLY_CHMOD_HIDRAW: &'static str =
    " 000 /dev/%k\", SYMLINK+=\"inputplumber/by-hidden/%k\"\n";

pub const LATE_CHMOD: &'static str = "\", MODE=\"000\", GROUP=\"root\", TAG-=\"uaccess\", RUN+=\"";

pub const LATE_CHMOD_INPUT: &'static str = " 000 /dev/input/%k\"\n";

pub const LATE_CHMOD_HIDRAW: &'static str = " 000 /dev/%k\"\n";

pub const MOVE: &'static str = "\", RUN+=\"";

pub const MOVE_INPUT: &'static str = " /dev/input/%k /dev/inputplumber/sources/%k\"\n";

pub const MOVE_HIDRAW: &'static str = " /dev/%k /dev/inputplumber/sources/%k\"\n";

pub const RULE_TITLE: &'static str = "# Hides devices stemming from ";

pub const RULE_NOTE: &'static str =
    "\n# Managed by InputPlumber, this file will be autoremoved during configuration changes.\n";

pub const RULE_BEGIN: &'static str =
    ", GOTO=\"inputplumber_valid\"\nGOTO=\"inputplumber_end\"\nLABEL=\"inputplumber_valid\"\n";

pub const RULE_END: &'static str = "\nLABEL=\"inputplumber_end\"\n";

/// When a hide rule is applied.
#[derive(Clone, Copy, Debug, PartialEq, Eq, Structural)]
pub enum Stage {
    /// As soon as the device appears.
    Early,
    /// For devices that were there at boot, to which the early rule does not apply.
    Late,
}

/// The line that takes all permissions from joystick and event nodes, and the line that takes
/// them from hidraw nodes.
pub open spec fn chmod_lines(stage: Stage, subsystem: Seq<char>, chmod: Seq<char>) -> Seq<char> {
    match stage {
        Stage::Early => INPUT_NODES@ + subsystem + EARLY_CHMOD@ + chmod + EARLY_CHMOD_INPUT@
            + HIDRAW_NODES@ + subsystem + EARLY_CHMOD@ + chmod + EARLY_CHMOD_HIDRAW@,
        Stage::Late => INPUT_NODES@ + subsystem + LATE_CHMOD@ + chmod + LATE_CHMOD_INPUT@
            + HIDRAW_NODES@ + subsystem + LATE_CHMOD@ + chmod + LATE_CHMOD_HIDRAW@,
    }
}

/// The line that moves joystick and event nodes away, and the line that moves hidraw nodes away.
pub open spec fn move_lines(subsystem: Seq<char>, mv: Seq<char>) -> Seq<char> {
    INPUT_NODES@ + subsystem + MOVE@ + mv + MOVE_INPUT@ + HIDRAW_NODES@ + subsystem + MOVE@ + mv
        + MOVE_HIDRAW@
}

/// A hide rule: the lines apply only to what `match_rule` picks out.
pub open spec fn hide_rule_text(
    name: Seq<char>,
    match_rule: Seq<char>,
    chmod_part: Seq<char>,
    move_part: Seq<char>,
) -> Seq<char> {
    RULE_TITLE@ + name + RULE_NOTE@ + match_rule + RULE_BEGIN@ + chmod_part + "\n"@ + move_part
        + RULE_END@
}

/// The lines that take all permissions from the device's nodes.
pub fn chmod_rule(stage: Stage, subsystem: &str, chmod: &str) -> (lines: String)
    ensures
        lines@ == chmod_lines(stage, subsystem@, chmod@),
{
    let mut lines = INPUT_NODES.to_owned();
    match stage {
        Stage::Early => {
            lines.append(subsystem);
            lines.append(EARLY_CHMOD);
            lines.append(chmod);
            lines.append(EARLY_CHMOD_INPUT);
            lines.append(HIDRAW_NODES);
            lines.append(subsystem);
            lines.append(EARLY_CHMOD);
            lines.append(chmod);
            lines.append(EARLY_CHMOD_HIDRAW);
        },
        Stage::Late => {
            lines.append(subsystem);
            lines.append(LATE_CHMOD);
            lines.append(chmod);
            lines.append(LATE_CHMOD_INPUT);
            lines.append(HIDRAW_NODES);
            lines.append(subsystem);
            lines.append(LATE_CHMOD);
            lines.append(chmod);
            lines.append(LATE_CHMOD_HIDRAW);
        },
    }
    lines
}

/// The lines that move the device's nodes away.
pub fn move_rule(subsystem: &str, mv: &str) -> (lines: String)
    ensures
        lines@ == move_lines(subsystem@, mv@),
{
    let mut lines = INPUT_NODES.to_owned();
    lines.append(subsystem);
    lines.append(MOVE);
    lines.append(mv);
    lines.append(MOVE_INPUT);
    lines.append(HIDRAW_NODES);
    lines.append(subsystem);
    lines.append(MOVE);
    lines.append(mv);
    lines.append(MOVE_HIDRAW);
    lines
}

/// A hide rule.
pub fn hide_rule(name: &str, match_rule: &str, chmod_part: &str, move_part: &str) -> (rule: String)
    ensures
        rule@ == hide_rule_text(name@, match_rule@, chmod_part@, move_part@),
{
    let mut rule = RULE_TITLE.to_owned();
    rule.append(name);
    rule.append(RULE_NOTE);
    rule.append(match_rule);
    rule.append(RULE_BEGIN);
    rule.append(chmod_part);
    rule.append("\n");
    rule.append(move_part);
    rule.append(RULE_END);
    rule
}

} // verus!
