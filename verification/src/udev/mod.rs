//! Hiding input devices behind udev rules, and reading what udev knows of a device.

pub mod device;
#[allow(unused_imports)]
pub mod laws;
pub mod rules;
pub mod unhide;

use vstd::prelude::*;
#[allow(unused_imports)]
use vstd::utf8::*;

use crate::text;

use self::device::Device;
use self::rules::Stage;

pub use self::unhide::{unhide_all, unhide_device};

verus! {

pub const RULE_HIDE_DEVICE_EARLY_PRIORITY: &'static str = "50";

pub const RULE_HIDE_DEVICE_LATE_PRIORITY: &'static str = "96";

/// Directory of the rules that last until the next boot.
pub const RULES_PREFIX: &'static str = "/run/udev/rules.d";

/// Directory to which hidden device nodes are moved.
pub const SOURCES_DIR: &'static str = "/dev/inputplumber/sources";

/// What the names of all hide rules hold.
pub const HIDE_MARK: &'static str = "-inputplumber-hide-";

pub const EARLY_SUFFIX: &'static str = "-early.rules";

pub const LATE_SUFFIX: &'static str = "-late.rules";

/// Permissions of a device node that is given back to its users.
pub const RESTORED_MODE: u32 = 0o660;

/// The permission bits of a file mode.
pub const PERMISSION_BITS: u32 = 0o777;

/// HideFlags can be used to change the behavior of how devices are hidden.
#[derive(Clone, Copy, Debug, PartialEq, Eq, Structural)]
pub enum HideFlag {
    ChangePermissions,
    MoveSourceDevice,
}

/// A program that hide rules run.
#[derive(Clone, Copy, Debug, PartialEq, Eq, Structural)]
pub enum Tool {
    Chmod,
    Mv,
}

/// Why a device could not be hidden.
#[derive(Clone, Copy, Debug, PartialEq, Eq, Structural)]
pub enum HideError {
    /// The device has no parent.
    NoParent,
    /// No rule can pick out the device.
    NoMatchRule,
    /// A program that the rules run is not installed.
    ToolNotFound(Tool),
    /// The path of a program is not UTF-8.
    ToolPathNotUtf8(Tool),
}

/// Why a description could not be read.
#[derive(Clone, Copy, Debug, PartialEq, Eq, Structural)]
pub enum DescriptionError {
    /// The description is not UTF-8.
    NotUtf8,
}

/// What the search of the PATH for a program printed.
pub struct WhichOutput {
    pub success: bool,
    pub stdout: Vec<u8>,
}

/// Where a program was found: in the usual places, in the order of [`tool_places`], and, asked
/// only where it is in none of them, on the PATH.
pub struct ToolSearch {
    pub present: [bool; 3],
    pub which: Option<WhichOutput>,
}

/// A file to write.
pub struct RuleFile {
    pub path: String,
    pub content: String,
}

/// What hides a device: the files to write, and the parent whose children are triggered after.
pub struct HidePlan {
    pub early: RuleFile,
    pub late: RuleFile,
    pub parent: String,
}

/// The name of a tool's program.
pub open spec fn tool_name(tool: Tool) -> Seq<char> {
    match tool {
        Tool::Chmod => "chmod"@,
        Tool::Mv => "mv"@,
    }
}

/// The usual places of a tool.
pub open spec fn places(tool: Tool) -> Seq<Seq<char>> {
    seq![
        "/bin/"@ + tool_name(tool),
        "/usr/bin/"@ + tool_name(tool),
        "/run/current-system/sw/bin/"@ + tool_name(tool),
    ]
}

/// The path of a tool after a search: the first usual place that has it, else what the search of
/// the PATH printed, without white space around it.
pub open spec fn located(tool: Tool, search: ToolSearch) -> Result<Seq<char>, HideError> {
    if search.present@[0] {
        Ok(places(tool)[0])
    } else if search.present@[1] {
        Ok(places(tool)[1])
    } else if search.present@[2] {
        Ok(places(tool)[2])
    } else {
        match search.which {
            Some(output) => if !output.success {
                Err(HideError::ToolNotFound(tool))
            } else if !valid_utf8(output.stdout@) {
                Err(HideError::ToolPathNotUtf8(tool))
            } else {
                Ok(text::trimmed(decode_utf8(output.stdout@)))
            },
            None => Err(HideError::ToolNotFound(tool)),
        }
    }
}

/// The paths at which a tool is looked for first.
pub fn tool_places(tool: Tool) -> (paths: Vec<String>)
    ensures
        text::views(paths@) == places(tool),
{
    let name = match tool {
        Tool::Chmod => "chmod",
        Tool::Mv => "mv",
    };
    let mut paths: Vec<String> = Vec::new();
    paths.push(text::joined("/bin/", name));
    paths.push(text::joined("/usr/bin/", name));
    paths.push(text::joined("/run/current-system/sw/bin/", name));
    assert(text::views(paths@) =~= places(tool));
    paths
}

/// The path of a tool after a search.
pub fn locate_tool(tool: Tool, search: &ToolSearch) -> (path: Result<String, HideError>)
    ensures
        match path {
            Ok(found) => located(tool, *search) == Ok::<Seq<char>, HideError>(found@),
            Err(error) => located(tool, *search) == Err::<Seq<char>, HideError>(error),
        },
{
    let paths = tool_places(tool);
    assert(text::views(paths@).len() == 3);
    assert(forall|i: int| 0 <= i < 3 ==> #[trigger] text::views(paths@)[i] == paths@[i]@);
    if search.present[0] {
        return Ok(paths[0].clone());
    }
    if search.present[1] {
        return Ok(paths[1].clone());
    }
    if search.present[2] {
        return Ok(paths[2].clone());
    }
    match &search.which {
        Some(output) => if !output.success {
            Err(HideError::ToolNotFound(tool))
        } else {
            match text::decode(output.stdout.clone()) {
                Some(printed) => Ok(text::trim(printed.as_str())),
                None => Err(HideError::ToolPathNotUtf8(tool)),
            }
        },
        None => Err(HideError::ToolNotFound(tool)),
    }
}

/// The file name of a hide rule.
pub open spec fn rule_name(stage: Stage, name: Seq<char>) -> Seq<char> {
    match stage {
        Stage::Early => RULE_HIDE_DEVICE_EARLY_PRIORITY@ + HIDE_MARK@ + name + EARLY_SUFFIX@,
        Stage::Late => RULE_HIDE_DEVICE_LATE_PRIORITY@ + HIDE_MARK@ + name + LATE_SUFFIX@,
    }
}

/// The path of a file in a directory.
pub open spec fn path_in(dir: Seq<char>, name: Seq<char>) -> Seq<char> {
    dir + "/"@ + name
}

/// Why a device cannot be hidden, where it cannot.
pub open spec fn hide_failure(
    has_parent: bool,
    has_match_rule: bool,
    flags: Seq<HideFlag>,
    chmod: ToolSearch,
    mv: ToolSearch,
) -> Option<HideError> {
    if !has_parent {
        Some(HideError::NoParent)
    } else if !has_match_rule {
        Some(HideError::NoMatchRule)
    } else if flags.contains(HideFlag::ChangePermissions) && located(Tool::Chmod, chmod) is Err {
        Some(located(Tool::Chmod, chmod)->Err_0)
    } else if flags.contains(HideFlag::MoveSourceDevice) && located(Tool::Mv, mv) is Err {
        Some(located(Tool::Mv, mv)->Err_0)
    } else {
        None
    }
}

/// The text of the rule that hides a device at one stage.
pub open spec fn hiding_rule(
    stage: Stage,
    name: Seq<char>,
    subsystem: Seq<char>,
    match_rule: Seq<char>,
    flags: Seq<HideFlag>,
    chmod: ToolSearch,
    mv: ToolSearch,
) -> Seq<char> {
    let chmod_part = if flags.contains(HideFlag::ChangePermissions) {
        rules::chmod_lines(stage, subsystem, located(Tool::Chmod, chmod)->Ok_0)
    } else {
        Seq::<char>::empty()
    };
    let move_part = if flags.contains(HideFlag::MoveSourceDevice) {
        rules::move_lines(subsystem, located(Tool::Mv, mv)->Ok_0)
    } else {
        Seq::<char>::empty()
    };
    rules::hide_rule_text(name, match_rule, chmod_part, move_part)
}

/// Whether `flag` is among `flags`.
pub fn has_flag(flags: &[HideFlag], flag: HideFlag) -> (found: bool)
    ensures
        found == flags@.contains(flag),
{
    let mut at: usize = 0;
    while at < flags.len()
        invariant
            at <= flags.len(),
            forall|i: int| 0 <= i < at ==> flags@[i] != flag,
        decreases flags.len() - at,
    {
        if flags[at] == flag {
            assert(flags@[at as int] == flag);
            return true;
        }
        at = at + 1;
    }
    false
}

/// The path of a file in a directory.
pub fn join_path(dir: &str, name: &str) -> (path: String)
    ensures
        path@ == path_in(dir@, name@),
{
    let mut path = dir.to_owned();
    path.append("/");
    path.append(name);
    path
}

/// The path of a device's hide rule.
pub fn rule_path(stage: Stage, name: &str) -> (path: String)
    ensures
        path@ == path_in(RULES_PREFIX@, rule_name(stage, name@)),
{
    let mut file = match stage {
        Stage::Early => RULE_HIDE_DEVICE_EARLY_PRIORITY.to_owned(),
        Stage::Late => RULE_HIDE_DEVICE_LATE_PRIORITY.to_owned(),
    };
    file.append(HIDE_MARK);
    file.append(name);
    match stage {
        Stage::Early => {
            file.append(EARLY_SUFFIX);
        },
        Stage::Late => {
            file.append(LATE_SUFFIX);
        },
    }
    join_path(RULES_PREFIX, file.as_str())
}

impl HideError {
    /// What the error says.
    pub open spec fn text(self) -> Seq<char> {
        match self {
            HideError::NoParent => "Unable to determine parent for device"@,
            HideError::NoMatchRule => "Unable to create match rule for device"@,
            HideError::ToolNotFound(tool) => "Unable to determine "@ + tool_name(tool)
                + " command location"@,
            HideError::ToolPathNotUtf8(tool) => "The location of the "@ + tool_name(tool)
                + " command is not UTF-8"@,
        }
    }

    /// What the error says.
    pub fn message(&self) -> (message: String)
        ensures
            message@ == self.text(),
    {
        match self {
            HideError::NoParent => "Unable to determine parent for device".to_owned(),
            HideError::NoMatchRule => "Unable to create match rule for device".to_owned(),
            HideError::ToolNotFound(tool) => {
                let mut message = "Unable to determine ".to_owned();
                message.append(
                    match tool {
                        Tool::Chmod => "chmod",
                        Tool::Mv => "mv",
                    },
                );
                message.append(" command location");
                message
            },
            HideError::ToolPathNotUtf8(tool) => {
                let mut message = "The location of the ".to_owned();
                message.append(
                    match tool {
                        Tool::Chmod => "chmod",
                        Tool::Mv => "mv",
                    },
                );
                message.append(" command is not UTF-8");
                message
            },
        }
    }
}

/// Decides how to hide a device from regular users: which rules to write, and where.
pub fn hide_device(
    device: &Device,
    parent: Option<String>,
    match_rule: Option<String>,
    flags: &[HideFlag],
    chmod: &ToolSearch,
    mv: &ToolSearch,
) -> (result: Result<HidePlan, HideError>)
    ensures
        match result {
            Err(error) => hide_failure(
                parent is Some,
                match_rule is Some,
                flags@,
                *chmod,
                *mv,
            ) == Some(error),
            Ok(plan) => {
                &&& hide_failure(parent is Some, match_rule is Some, flags@, *chmod, *mv) is None
                &&& plan.parent@ == parent->0@
                &&& plan.early.path@ == path_in(
                    RULES_PREFIX@,
                    rule_name(Stage::Early, device.name@),
                )
                &&& plan.early.content@ == hiding_rule(
                    Stage::Early,
                    device.name@,
                    device.subsystem@,
                    match_rule->0@,
                    flags@,
                    *chmod,
                    *mv,
                )
                &&& plan.late.path@ == path_in(RULES_PREFIX@, rule_name(Stage::Late, device.name@))
                &&& plan.late.content@ == hiding_rule(
                    Stage::Late,
                    device.name@,
                    device.subsystem@,
                    match_rule->0@,
                    flags@,
                    *chmod,
                    *mv,
                )
            },
        },
{
    let name = device.name.as_str();
    let subsystem = device.subsystem.as_str();
    let parent = match parent {
        Some(parent) => parent,
        None => return Err(HideError::NoParent),
    };
    let match_rule = match match_rule {
        Some(match_rule) => match_rule,
        None => return Err(HideError::NoMatchRule),
    };
    let mut chmod_early = String::new();
    let mut chmod_late = String::new();
    if has_flag(flags, HideFlag::ChangePermissions) {
        let command = match locate_tool(Tool::Chmod, chmod) {
            Ok(command) => command,
            Err(error) => return Err(error),
        };
        chmod_early = rules::chmod_rule(Stage::Early, subsystem, command.as_str());
        chmod_late = rules::chmod_rule(Stage::Late, subsystem, command.as_str());
    }
    let mut moved = String::new();
    if has_flag(flags, HideFlag::MoveSourceDevice) {
        let command = match locate_tool(Tool::Mv, mv) {
            Ok(command) => command,
            Err(error) => return Err(error),
        };
        moved = rules::move_rule(subsystem, command.as_str());
    }
    Ok(
        HidePlan {
            early: RuleFile {
                path: rule_path(Stage::Early, name),
                content: rules::hide_rule(
                    name,
                    match_rule.as_str(),
                    chmod_early.as_str(),
                    moved.as_str(),
                ),
            },
            late: RuleFile {
                path: rule_path(Stage::Late, name),
                content: rules::hide_rule(
                    name,
                    match_rule.as_str(),
                    chmod_late.as_str(),
                    moved.as_str(),
                ),
            },
            parent,
        },
    )
}

/// Reads the device that the output of `udevadm info` describes.
pub fn get_device(output: Vec<u8>) -> (result: Result<Device, DescriptionError>)
    ensures
        result is Err <==> !valid_utf8(output@),
        result matches Ok(device) ==> {
            &&& device.wf()
            &&& device@ == device::described_by(text::pieces(decode_utf8(output@), '\n'))
        },
{
    let output = match text::decode(output) {
        Some(output) => output,
        None => return Err(DescriptionError::NotUtf8),
    };
    let lines = text::split(output.as_str(), '\n');
    let ghost wanted = text::pieces(output@, '\n');
    let mut device = Device::new();
    let mut at: usize = 0;
    assert(wanted.take(0) =~= Seq::empty());
    while at < lines.len()
        invariant
            at <= lines.len(),
            text::views(lines@) == wanted,
            device.wf(),
            device@ == device::described_by(wanted.take(at as int)),
        decreases lines.len() - at,
    {
        assert(wanted.take(at + 1).drop_last() =~= wanted.take(at as int));
        assert(wanted[at as int] == lines@[at as int]@);
        device.take_line(lines[at].as_str());
        at = at + 1;
    }
    assert(wanted.take(at as int) =~= wanted);
    Ok(device)
}

/// The devices that have a device node, in the order in which they were found.
pub open spec fn with_devnode<D>(found: Seq<(D, Option<String>)>) -> Seq<D>
    decreases found.len(),
{
    if found.len() == 0 {
        Seq::empty()
    } else {
        let before = with_devnode(found.drop_last());
        if found.last().1 is Some {
            before.push(found.last().0)
        } else {
            before
        }
    }
}

/// Picks out the devices that have a device node. Each device comes with the path of its node.
pub fn discover_devices<D>(found: Vec<(D, Option<String>)>) -> (devices: Vec<D>)
    ensures
        devices@ == with_devnode(found@),
{
    let mut devices: Vec<D> = Vec::new();
    let ghost all = found@;
    assert(all.take(0) =~= Seq::empty());
    for entry in it: found
        invariant
            it.seq() == all,
            devices@ == with_devnode(all.take(it.index() as int)),
    {
        proof {
            let at = it.index() as int;
            assert(all.take(at + 1).drop_last() =~= all.take(at));
            assert(all.take(at + 1).last() == entry);
        }
        let (device, devnode) = entry;
        if devnode.is_some() {
            devices.push(device);
        }
    }
    assert(all.take(all.len() as int) =~= all);
    devices
}

/// Giving a device back removes the rules that hiding it wrote, both of them, whatever else it
/// does.
pub proof fn law_unhide_removes_the_rules(
    name: Seq<char>,
    parent: Option<Seq<char>>,
    moved: bool,
    stage: Stage,
)
    ensures
        unhide::unhide_steps(Some(name), parent, moved).contains(
            unhide::Step::RemoveRule(path_in(RULES_PREFIX@, rule_name(stage, name))),
        ),
{
    let steps = unhide::unhide_steps(Some(name), parent, moved);
    assert(steps[0] == unhide::remove_rule(Stage::Early, name));
    assert(steps[1] == unhide::remove_rule(Stage::Late, name));
}

/// The paths of two files in a directory are the same only where their names are.
pub(crate) proof fn lemma_path_tells_the_name(dir: Seq<char>, name: Seq<char>, other: Seq<char>)
    requires
        path_in(dir, name) == path_in(dir, other),
    ensures
        name == other,
{
    let start = dir.len() + "/"@.len();
    assert(path_in(dir, name).skip(start as int) =~= name);
    assert(path_in(dir, other).skip(start as int) =~= other);
}

/// The names of two hide rules are the same only where their stages and their devices are.
proof fn lemma_rule_tells_the_device(
    stage: Stage,
    name: Seq<char>,
    other_stage: Stage,
    other: Seq<char>,
)
    requires
        rule_name(stage, name) == rule_name(other_stage, other),
    ensures
        stage == other_stage,
        name == other,
{
    reveal_strlit("50");
    reveal_strlit("96");
    let file = rule_name(stage, name);
    assert(RULE_HIDE_DEVICE_EARLY_PRIORITY@[0] == '5' && RULE_HIDE_DEVICE_LATE_PRIORITY@[0] == '9');
    assert(file[0] == (if stage == Stage::Early {
        '5'
    } else {
        '9'
    }));
    assert(file[0] == (if other_stage == Stage::Early {
        '5'
    } else {
        '9'
    }));
    let suffix = match stage {
        Stage::Early => EARLY_SUFFIX@,
        Stage::Late => LATE_SUFFIX@,
    };
    let start = 2 + HIDE_MARK@.len();
    assert(file.subrange(start as int, file.len() - suffix.len()) =~= name);
    assert(file.subrange(start as int, file.len() - suffix.len()) =~= other);
}

/// Giving a device back leaves the others hidden: it removes no rule and moves no node of a device
/// with another name.
pub proof fn law_unhide_leaves_other_devices(
    name: Seq<char>,
    parent: Option<Seq<char>>,
    moved: bool,
    other: Seq<char>,
    stage: Stage,
    to: Seq<char>,
)
    requires
        other != name,
    ensures
        !unhide::unhide_steps(Some(name), parent, moved).contains(
            unhide::Step::RemoveRule(path_in(RULES_PREFIX@, rule_name(stage, other))),
        ),
        !unhide::unhide_steps(Some(name), parent, moved).contains(
            unhide::Step::RestoreNode { from: path_in(SOURCES_DIR@, other), to },
        ),
{
    let steps = unhide::unhide_steps(Some(name), parent, moved);
    let rule = path_in(RULES_PREFIX@, rule_name(stage, other));
    if steps.contains(unhide::Step::RemoveRule(rule)) {
        let at = choose|i: int| 0 <= i < steps.len() && steps[i] == unhide::Step::RemoveRule(rule);
        let found = if at == 0 {
            Stage::Early
        } else {
            Stage::Late
        };
        assert(steps[at] == unhide::remove_rule(found, name));
        lemma_path_tells_the_name(RULES_PREFIX@, rule_name(found, name), rule_name(stage, other));
        lemma_rule_tells_the_device(found, name, stage, other);
    }
    let step = unhide::Step::RestoreNode { from: path_in(SOURCES_DIR@, other), to };
    if steps.contains(step) {
        let at = choose|i: int| 0 <= i < steps.len() && steps[i] == step;
        assert(steps[at] == unhide::move_back(name));
        lemma_path_tells_the_name(SOURCES_DIR@, name, other);
    }
}

/// Giving all devices back removes every rule that hiding any device wrote, if it is in the rule
/// directory.
pub proof fn law_unhide_all_removes_every_rule(
    files: Seq<Seq<char>>,
    nodes: Seq<Seq<char>>,
    name: Seq<char>,
    stage: Stage,
)
    requires
        files.contains(rule_name(stage, name)),
    ensures
        unhide::unhide_all_steps(files, nodes).contains(
            unhide::Step::RemoveRule(path_in(RULES_PREFIX@, rule_name(stage, name))),
        ),
{
    let file = rule_name(stage, name);
    lemma_rule_has_mark(stage, name);
    lemma_marked_rule_is_removed(files, file);
    let removals = unhide::rule_removals(files);
    let step = unhide::Step::RemoveRule(path_in(RULES_PREFIX@, file));
    let at = choose|i: int| 0 <= i < removals.len() && removals[i] == step;
    assert(unhide::unhide_all_steps(files, nodes)[at] == step);
}

/// Giving all devices back leaves every file that is not a hide rule where it is.
pub proof fn law_unhide_all_keeps_other_rules(
    files: Seq<Seq<char>>,
    nodes: Seq<Seq<char>>,
    path: Seq<char>,
)
    requires
        unhide::unhide_all_steps(files, nodes).contains(unhide::Step::RemoveRule(path)),
    ensures
        exists|file: Seq<char>| #[trigger]
            files.contains(file) && text::occurs(file, HIDE_MARK@) && path == path_in(
                RULES_PREFIX@,
                file,
            ),
{
    let steps = unhide::unhide_all_steps(files, nodes);
    let removals = unhide::rule_removals(files);
    let at = choose|i: int| 0 <= i < steps.len() && steps[i] == unhide::Step::RemoveRule(path);
    assert(at < removals.len()) by {
        if removals.len() <= at < removals.len() + nodes.len() {
            assert(steps[at] == unhide::move_back(nodes[at - removals.len()]));
        }
    }
    assert(removals[at] == unhide::Step::RemoveRule(path));
    lemma_removal_has_mark(files, at);
}

/// The name of a hide rule carries the mark of hide rules.
proof fn lemma_rule_has_mark(stage: Stage, name: Seq<char>)
    ensures
        text::occurs(rule_name(stage, name), HIDE_MARK@),
{
    let file = rule_name(stage, name);
    let priority = match stage {
        Stage::Early => RULE_HIDE_DEVICE_EARLY_PRIORITY@,
        Stage::Late => RULE_HIDE_DEVICE_LATE_PRIORITY@,
    };
    let at = priority.len() as int;
    assert(file.subrange(at, at + HIDE_MARK@.len()) =~= HIDE_MARK@);
    assert(text::matches_at(file, HIDE_MARK@, at));
}

/// A marked file is removed.
pub(crate) proof fn lemma_marked_rule_is_removed(files: Seq<Seq<char>>, file: Seq<char>)
    requires
        files.contains(file),
        text::occurs(file, HIDE_MARK@),
    ensures
        unhide::rule_removals(files).contains(
            unhide::Step::RemoveRule(path_in(RULES_PREFIX@, file)),
        ),
    decreases files.len(),
{
    let step = unhide::Step::RemoveRule(path_in(RULES_PREFIX@, file));
    let before = unhide::rule_removals(files.drop_last());
    if files.last() == file {
        assert(unhide::rule_removals(files)[before.len() as int] == step);
    } else {
        let at = choose|i: int| 0 <= i < files.len() && files[i] == file;
        assert(files.drop_last()[at] == file);
        lemma_marked_rule_is_removed(files.drop_last(), file);
        let place = choose|i: int| 0 <= i < before.len() && before[i] == step;
        assert(unhide::rule_removals(files)[place] == step);
    }
}

/// What is removed is a marked file of the directory.
proof fn lemma_removal_has_mark(files: Seq<Seq<char>>, at: int)
    requires
        0 <= at < unhide::rule_removals(files).len(),
    ensures
        exists|file: Seq<char>| #[trigger]
            files.contains(file) && text::occurs(file, HIDE_MARK@)
                && unhide::rule_removals(files)[at] == unhide::Step::RemoveRule(
                path_in(RULES_PREFIX@, file),
            ),
    decreases files.len(),
{
    let before = unhide::rule_removals(files.drop_last());
    if at < before.len() {
        lemma_removal_has_mark(files.drop_last(), at);
        let file = choose|file: Seq<char>| #[trigger]
            files.drop_last().contains(file) && text::occurs(file, HIDE_MARK@) && before[at]
                == unhide::Step::RemoveRule(path_in(RULES_PREFIX@, file));
        let place = choose|i: int|
            0 <= i < files.drop_last().len() && files.drop_last()[i] == file;
        assert(files[place] == file);
        assert(files.contains(file));
    } else {
        assert(files[files.len() - 1] == files.last());
        assert(files.contains(files.last()));
    }
}

/// The permission pass comes last, whatever was known of the device.
pub proof fn law_unhide_ends_with_permissions(
    name: Option<Seq<char>>,
    parent: Option<Seq<char>>,
    moved: bool,
)
    ensures
        unhide::unhide_steps(name, parent, moved).last() == unhide::Step::RestorePermissions,
{
}

/// A node goes back to where its hide rule moved it from: event and joystick nodes to the input
/// directory, hidraw nodes to the device directory.
pub proof fn law_node_returns_to_its_place(name: Seq<char>)
    ensures
        "event"@.is_prefix_of(name) || "js"@.is_prefix_of(name) ==> unhide::move_back(name)
            == (unhide::Step::RestoreNode {
            from: path_in(SOURCES_DIR@, name),
            to: "/dev/input/"@ + name,
        }),
        "hidraw"@.is_prefix_of(name) ==> unhide::move_back(name) == (unhide::Step::RestoreNode {
            from: path_in(SOURCES_DIR@, name),
            to: "/dev/"@ + name,
        }),
{
    reveal_strlit("event");
    reveal_strlit("js");
    reveal_strlit("hidraw");
    assert("event"@[0] == 'e' && "js"@[0] == 'j' && "hidraw"@[0] == 'h');
    if "hidraw"@.is_prefix_of(name) {
        assert(name[0] == 'h');
        assert(!unhide::is_input_name(name));
    }
}

/// A node whose permissions were restored is no longer hidden, whatever type of file it is.
pub proof fn law_restored_node_is_not_hidden(dir: Seq<char>, name: Seq<char>, mode: u32)
    requires
        mode & PERMISSION_BITS == RESTORED_MODE,
    ensures
        !unhide::is_hidden_node(dir, name, Some(mode)),
{
}

/// A line of a description that carries no known tag changes nothing.
pub proof fn law_unknown_lines_are_ignored(device: device::DeviceModel, line: Seq<char>)
    requires
        !device::PATH_TAG@.is_prefix_of(line),
        !device::NAME_TAG@.is_prefix_of(line),
        !device::NUMBER_TAG@.is_prefix_of(line),
        !device::SUBSYSTEM_TAG@.is_prefix_of(line),
        !device::TYPE_TAG@.is_prefix_of(line),
        !device::NODE_TAG@.is_prefix_of(line),
        !device::NETWORK_TAG@.is_prefix_of(line),
        !device::NODE_NAME_TAG@.is_prefix_of(line),
        !device::PRIORITY_TAG@.is_prefix_of(line),
        !device::SYMLINK_TAG@.is_prefix_of(line),
        !device::SEQUENCE_TAG@.is_prefix_of(line),
        !device::DRIVER_TAG@.is_prefix_of(line),
        !device::PROPERTY_TAG@.is_prefix_of(line),
    ensures
        device::with_line(device, line) == device,
{
}

/// A description is read line by line: what was written in separate lines is taken up as these
/// lines.
pub proof fn law_description_is_read_by_lines(lines: Seq<Seq<char>>)
    requires
        lines.len() > 0,
        forall|i: int| 0 <= i < lines.len() ==> !(#[trigger] lines[i]).contains('\n'),
    ensures
        device::described_by(text::pieces(text::lines_joined(lines, '\n'), '\n'))
            == device::described_by(lines),
{
    text::lemma_pieces_of_joined(lines, '\n');
}

/// A line gives back the value that was written behind its tag, unless the tag occurs in the value.
pub proof fn law_tagged_line_gives_its_value(tag: Seq<char>, value: Seq<char>)
    requires
        tag.len() > 0,
        !text::occurs(value, tag),
    ensures
        device::tagged(tag + value, tag) == Some(value),
{
    let line = tag + value;
    assert(line.subrange(0, tag.len() as int) =~= tag);
    assert(line.skip(tag.len() as int) =~= value);
    text::lemma_without_absent(value, tag);
}

/// A property line sets the property that was written, unless the tag occurs in it.
pub proof fn law_property_line_sets_the_property(
    device: device::DeviceModel,
    key: Seq<char>,
    value: Seq<char>,
)
    requires
        !key.contains('='),
        !text::occurs(key.push('=') + value, device::PROPERTY_TAG@),
    ensures
        device::with_line(device, device::PROPERTY_TAG@ + (key.push('=') + value)) == (
        device::DeviceModel { properties: device.properties.insert(key, value), ..device }),
{
    let tag = device::PROPERTY_TAG@;
    let line = tag + (key.push('=') + value);
    reveal_strlit("E: ");
    assert(line[0] == 'E');
    lemma_other_tags('E', line);
    law_tagged_line_gives_its_value(tag, key.push('=') + value);
    text::lemma_cut_at_separator(key, '=', value);
}

/// A name line sets the name that was written, unless the tag occurs in it.
pub proof fn law_name_line_sets_the_name(device: device::DeviceModel, name: Seq<char>)
    requires
        !text::occurs(name, device::NAME_TAG@),
    ensures
        device::with_line(device, device::NAME_TAG@ + name) == (device::DeviceModel {
            name,
            ..device
        }),
{
    let tag = device::NAME_TAG@;
    let line = tag + name;
    reveal_strlit("M: ");
    assert(line[0] == 'M');
    lemma_other_tags('M', line);
    law_tagged_line_gives_its_value(tag, name);
}

/// A line carries no tag but the one with its first letter.
pub(crate) proof fn lemma_other_tags(letter: char, line: Seq<char>)
    requires
        line.len() > 0,
        line[0] == letter,
    ensures
        letter != 'P' ==> !device::PATH_TAG@.is_prefix_of(line),
        letter != 'M' ==> !device::NAME_TAG@.is_prefix_of(line),
        letter != 'R' ==> !device::NUMBER_TAG@.is_prefix_of(line),
        letter != 'U' ==> !device::SUBSYSTEM_TAG@.is_prefix_of(line),
        letter != 'T' ==> !device::TYPE_TAG@.is_prefix_of(line),
        letter != 'D' ==> !device::NODE_TAG@.is_prefix_of(line),
        letter != 'I' ==> !device::NETWORK_TAG@.is_prefix_of(line),
        letter != 'N' ==> !device::NODE_NAME_TAG@.is_prefix_of(line),
        letter != 'L' ==> !device::PRIORITY_TAG@.is_prefix_of(line),
        letter != 'S' ==> !device::SYMLINK_TAG@.is_prefix_of(line),
        letter != 'Q' ==> !device::SEQUENCE_TAG@.is_prefix_of(line),
        letter != 'V' ==> !device::DRIVER_TAG@.is_prefix_of(line),
{
    reveal_strlit("P: ");
    reveal_strlit("M: ");
    reveal_strlit("R: ");
    reveal_strlit("U: ");
    reveal_strlit("T: ");
    reveal_strlit("D: ");
    reveal_strlit("I: ");
    reveal_strlit("N: ");
    reveal_strlit("L: ");
    reveal_strlit("S: ");
    reveal_strlit("Q: ");
    reveal_strlit("V: ");
    assert(device::PATH_TAG@[0] == 'P' && device::NAME_TAG@[0] == 'M');
    assert(device::NUMBER_TAG@[0] == 'R' && device::SUBSYSTEM_TAG@[0] == 'U');
    assert(device::TYPE_TAG@[0] == 'T' && device::NODE_TAG@[0] == 'D');
    assert(device::NETWORK_TAG@[0] == 'I' && device::NODE_NAME_TAG@[0] == 'N');
    assert(device::PRIORITY_TAG@[0] == 'L' && device::SYMLINK_TAG@[0] == 'S');
    assert(device::SEQUENCE_TAG@[0] == 'Q' && device::DRIVER_TAG@[0] == 'V');
}

/// The permission pass restores every input node without permissions: event and joystick nodes in
/// either directory, hidraw nodes in the device directory.
pub proof fn law_every_hidden_node_is_restored(
    dir: Seq<char>,
    entries: Seq<unhide::NodeEntry>,
    i: int,
)
    requires
        0 <= i < entries.len(),
    ensures
        unhide::is_hidden_node(dir, entries[i].name@, entries[i].mode) ==> unhide::hidden_nodes(
            dir,
            entries,
        ).contains(path_in(dir, entries[i].name@)),
    decreases entries.len(),
{
    let before = unhide::hidden_nodes(dir, entries.drop_last());
    let path = path_in(dir, entries[i].name@);
    if unhide::is_hidden_node(dir, entries[i].name@, entries[i].mode) {
        if i == entries.len() - 1 {
            assert(unhide::hidden_nodes(dir, entries)[before.len() as int] == path);
        } else {
            law_every_hidden_node_is_restored(dir, entries.drop_last(), i);
            assert(entries.drop_last()[i] == entries[i]);
            let at = choose|k: int| 0 <= k < before.len() && before[k] == path;
            assert(unhide::hidden_nodes(dir, entries)[at] == path);
        }
    }
}

/// The permission pass touches nothing else: every path that it restores is that of a hidden node.
pub proof fn law_only_hidden_nodes_are_restored(
    dir: Seq<char>,
    entries: Seq<unhide::NodeEntry>,
    at: int,
)
    requires
        0 <= at < unhide::hidden_nodes(dir, entries).len(),
    ensures
        exists|i: int|
            0 <= i < entries.len() && unhide::is_hidden_node(
                dir,
                (#[trigger] entries[i]).name@,
                entries[i].mode,
            ) && unhide::hidden_nodes(dir, entries)[at] == path_in(dir, entries[i].name@),
    decreases entries.len(),
{
    let shorter = entries.drop_last();
    let before = unhide::hidden_nodes(dir, shorter);
    if at < before.len() {
        law_only_hidden_nodes_are_restored(dir, shorter, at);
        let i = choose|i: int|
            0 <= i < shorter.len() && unhide::is_hidden_node(
                dir,
                (#[trigger] shorter[i]).name@,
                shorter[i].mode,
            ) && before[at] == path_in(dir, shorter[i].name@);
        assert(entries[i] == shorter[i]);
    } else {
        assert(entries[entries.len() - 1] == entries.last());
    }
}

} // verus!
