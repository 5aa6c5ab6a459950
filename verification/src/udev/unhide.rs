//! What has to be done to give hidden devices back.

use vstd::prelude::*;

use crate::text;

use super::rules::Stage;

verus! {

/// One thing to do to give devices back. Each is done whether or not the ones before succeeded.
pub enum UnhideStep {
    /// Remove a rule file.
    RemoveRule(String),
    /// Move a device node back.
    RestoreNode {
        from: String,
        to: String,
    },
    /// Apply the rules to the children of a device.
    ReloadChildren(String),
    /// Apply the rules to all devices.
    ReloadAll,
    /// Give permissions back to the nodes that have none.
    RestorePermissions,
}

/// The contents of an [`UnhideStep`].
#[verifier::ext_equal]
pub enum Step {
    RemoveRule(Seq<char>),
    RestoreNode { from: Seq<char>, to: Seq<char> },
    ReloadChildren(Seq<char>),
    ReloadAll,
    RestorePermissions,
}

impl View for UnhideStep {
    type V = Step;

    open spec fn view(&self) -> Step {
        match self {
            UnhideStep::RemoveRule(path) => Step::RemoveRule(path@),
            UnhideStep::RestoreNode { from, to } => Step::RestoreNode { from: from@, to: to@ },
            UnhideStep::ReloadChildren(parent) => Step::ReloadChildren(parent@),
            UnhideStep::ReloadAll => Step::ReloadAll,
            UnhideStep::RestorePermissions => Step::RestorePermissions,
        }
    }
}

/// The contents of each step.
pub open spec fn steps(list: Seq<UnhideStep>) -> Seq<Step> {
    list.map_values(|step: UnhideStep| step@)
}

/// The name is that of an event or joystick node.
pub open spec fn is_input_name(name: Seq<char>) -> bool {
    "event"@.is_prefix_of(name) || "js"@.is_prefix_of(name)
}

/// Where the device node of that name belongs.
pub open spec fn node_place(name: Seq<char>) -> Seq<char> {
    if is_input_name(name) {
        "/dev/input/"@ + name
    } else {
        "/dev/"@ + name
    }
}

/// The step that moves a node back.
pub open spec fn move_back(name: Seq<char>) -> Step {
    Step::RestoreNode { from: super::path_in(super::SOURCES_DIR@, name), to: node_place(name) }
}

/// The step that removes a device's rule.
pub open spec fn remove_rule(stage: Stage, name: Seq<char>) -> Step {
    Step::RemoveRule(super::path_in(super::RULES_PREFIX@, super::rule_name(stage, name)))
}

/// Giving back one device. Where udev did not know the device, only the permissions are restored.
pub open spec fn unhide_steps(
    name: Option<Seq<char>>,
    parent: Option<Seq<char>>,
    moved: bool,
) -> Seq<Step> {
    let known = match name {
        Some(name) => seq![remove_rule(Stage::Early, name), remove_rule(Stage::Late, name)] + (
        if moved {
            seq![move_back(name)]
        } else {
            Seq::<Step>::empty()
        }) + (match parent {
            Some(parent) => seq![Step::ReloadChildren(parent)],
            None => Seq::<Step>::empty(),
        }),
        None => Seq::<Step>::empty(),
    };
    known.push(Step::RestorePermissions)
}

/// The removal of the hide rules among `files`.
pub open spec fn rule_removals(files: Seq<Seq<char>>) -> Seq<Step>
    decreases files.len(),
{
    if files.len() == 0 {
        Seq::empty()
    } else {
        let before = rule_removals(files.drop_last());
        if text::occurs(files.last(), super::HIDE_MARK@) {
            before.push(Step::RemoveRule(super::path_in(super::RULES_PREFIX@, files.last())))
        } else {
            before
        }
    }
}

/// Giving back all devices, where the rule directory holds `files` and `nodes` were moved away.
pub open spec fn unhide_all_steps(files: Seq<Seq<char>>, nodes: Seq<Seq<char>>) -> Seq<Step> {
    rule_removals(files) + nodes.map_values(|name: Seq<char>| move_back(name))
        + seq![Step::ReloadAll, Step::RestorePermissions]
}

/// Whether the name is that of an event or joystick node.
fn input_name(name: &str) -> (found: bool)
    ensures
        found == is_input_name(name@),
{
    text::starts_with(name, "event") || text::starts_with(name, "js")
}

/// Where the device node of that name belongs.
pub fn device_node_path(name: &str) -> (path: String)
    ensures
        path@ == node_place(name@),
{
    if input_name(name) {
        text::joined("/dev/input/", name)
    } else {
        text::joined("/dev/", name)
    }
}

/// Where the device node of that name is kept while it is hidden.
pub fn source_node_path(name: &str) -> (path: String)
    ensures
        path@ == super::path_in(super::SOURCES_DIR@, name@),
{
    super::join_path(super::SOURCES_DIR, name)
}

/// Decides how to give back one device: `name` and `parent` are what udev knows of it, and `moved`
/// says whether its node was moved away.
pub fn unhide_device(name: Option<&str>, parent: Option<&str>, moved: bool) -> (list: Vec<
    UnhideStep,
>)
    ensures
        steps(list@) == unhide_steps(
            match name {
                Some(name) => Some(name@),
                None => None,
            },
            match parent {
                Some(parent) => Some(parent@),
                None => None,
            },
            moved,
        ),
{
    let mut list: Vec<UnhideStep> = Vec::new();
    if let Some(name) = name {
        list.push(UnhideStep::RemoveRule(super::rule_path(Stage::Early, name)));
        list.push(UnhideStep::RemoveRule(super::rule_path(Stage::Late, name)));
        assert(steps(list@) =~= seq![
            remove_rule(Stage::Early, name@),
            remove_rule(Stage::Late, name@),
        ]);
        if moved {
            let ghost before = list@;
            list.push(
                UnhideStep::RestoreNode {
                    from: source_node_path(name),
                    to: device_node_path(name),
                },
            );
            assert(steps(list@) =~= steps(before) + seq![move_back(name@)]);
        } else {
            assert(steps(list@) =~= steps(list@) + Seq::<Step>::empty());
        }
        if let Some(parent) = parent {
            let ghost before = list@;
            list.push(UnhideStep::ReloadChildren(parent.to_owned()));
            assert(steps(list@) =~= steps(before) + seq![Step::ReloadChildren(parent@)]);
        } else {
            assert(steps(list@) =~= steps(list@) + Seq::<Step>::empty());
        }
    } else {
        assert(steps(list@) =~= Seq::<Step>::empty());
    }
    let ghost before = list@;
    list.push(UnhideStep::RestorePermissions);
    assert(steps(list@) =~= steps(before).push(Step::RestorePermissions));
    list
}

/// Decides how to give back all devices, where the rule directory holds `files` and `nodes` were
/// moved away.
pub fn unhide_all(files: &Vec<String>, nodes: &Vec<String>) -> (list: Vec<UnhideStep>)
    ensures
        steps(list@) == unhide_all_steps(text::views(files@), text::views(nodes@)),
{
    let mut list: Vec<UnhideStep> = Vec::new();
    let ghost names = text::views(files@);
    let mut at: usize = 0;
    assert(steps(list@) =~= rule_removals(names.take(0)));
    while at < files.len()
        invariant
            at <= files.len(),
            names == text::views(files@),
            steps(list@) == rule_removals(names.take(at as int)),
        decreases files.len() - at,
    {
        let ghost before = list@;
        assert(names.take(at + 1).drop_last() =~= names.take(at as int));
        assert(names[at as int] == files@[at as int]@);
        if text::contains(files[at].as_str(), super::HIDE_MARK) {
            let path = super::join_path(super::RULES_PREFIX, files[at].as_str());
            list.push(UnhideStep::RemoveRule(path));
            assert(steps(list@) =~= steps(before).push(Step::RemoveRule(path@)));
        }
        at = at + 1;
    }
    assert(names.take(at as int) =~= names);
    let ghost removals = rule_removals(names);
    let ghost moved = text::views(nodes@).map_values(|name: Seq<char>| move_back(name));
    at = 0;
    assert(removals + moved.take(0) =~= removals);
    while at < nodes.len()
        invariant
            at <= nodes.len(),
            moved == text::views(nodes@).map_values(|name: Seq<char>| move_back(name)),
            steps(list@) == removals + moved.take(at as int),
        decreases nodes.len() - at,
    {
        let ghost before = list@;
        let name = nodes[at].as_str();
        list.push(
            UnhideStep::RestoreNode { from: source_node_path(name), to: device_node_path(name) },
        );
        assert(moved[at as int] == move_back(name@));
        assert(steps(list@) =~= steps(before).push(move_back(name@)));
        assert(removals + moved.take(at + 1) =~= (removals + moved.take(at as int)).push(
            moved[at as int],
        ));
        at = at + 1;
    }
    assert(moved.take(at as int) =~= moved);
    let ghost before = list@;
    list.push(UnhideStep::ReloadAll);
    list.push(UnhideStep::RestorePermissions);
    assert(steps(list@) =~= steps(before) + seq![Step::ReloadAll, Step::RestorePermissions]);
    list
}

/// The directories in which hidden nodes are looked for, in that order.
pub open spec fn node_dirs() -> Seq<Seq<char>> {
    seq!["/dev/input"@, "/dev"@]
}

/// The directories in which hidden nodes are looked for, in that order.
pub fn restore_hidden_input_permissions() -> (dirs: Vec<String>)
    ensures
        text::views(dirs@) == node_dirs(),
{
    let mut dirs: Vec<String> = Vec::new();
    dirs.push("/dev/input".to_owned());
    dirs.push("/dev".to_owned());
    assert(text::views(dirs@) =~= node_dirs());
    dirs
}

/// A directory entry, with its file mode where that could be read.
pub struct NodeEntry {
    pub name: String,
    pub mode: Option<u32>,
}

/// The entry is an input device node that nobody may use.
pub open spec fn is_hidden_node(dir: Seq<char>, name: Seq<char>, mode: Option<u32>) -> bool {
    &&& is_input_name(name) || (dir == "/dev"@ && "hidraw"@.is_prefix_of(name))
    &&& mode matches Some(mode) && mode & super::PERMISSION_BITS == 0
}

/// The paths of the hidden nodes among the entries of a directory.
pub open spec fn hidden_nodes(dir: Seq<char>, entries: Seq<NodeEntry>) -> Seq<Seq<char>>
    decreases entries.len(),
{
    if entries.len() == 0 {
        Seq::empty()
    } else {
        let before = hidden_nodes(dir, entries.drop_last());
        let entry = entries.last();
        if is_hidden_node(dir, entry.name@, entry.mode) {
            before.push(super::path_in(dir, entry.name@))
        } else {
            before
        }
    }
}

/// Picks out the nodes in a directory whose permissions have to be restored.
pub fn restore_hidden_nodes_in_dir(dir: &str, entries: &Vec<NodeEntry>) -> (paths: Vec<String>)
    ensures
        text::views(paths@) == hidden_nodes(dir@, entries@),
{
    let mut paths: Vec<String> = Vec::new();
    let in_dev = text::equal(dir, "/dev");
    let mut at: usize = 0;
    assert(text::views(paths@) =~= hidden_nodes(dir@, entries@.take(0)));
    while at < entries.len()
        invariant
            at <= entries.len(),
            in_dev == (dir@ == "/dev"@),
            text::views(paths@) == hidden_nodes(dir@, entries@.take(at as int)),
        decreases entries.len() - at,
    {
        let ghost before = paths@;
        assert(entries@.take(at + 1).drop_last() =~= entries@.take(at as int));
        let entry = &entries[at];
        let name = entry.name.as_str();
        let relevant = input_name(name) || (in_dev && text::starts_with(name, "hidraw"));
        let hidden = match entry.mode {
            Some(mode) => mode & super::PERMISSION_BITS == 0,
            None => false,
        };
        if relevant && hidden {
            let path = super::join_path(dir, name);
            paths.push(path);
            assert(text::views(paths@) =~= text::views(before).push(path@));
        }
        at = at + 1;
    }
    assert(entries@.take(at as int) =~= entries@);
    paths
}

/// The words of each command line.
pub open spec fn command_lines(lines: Seq<Vec<String>>) -> Seq<Seq<Seq<char>>> {
    lines.map_values(|words: Vec<String>| text::views(words@))
}

/// A command line of two words, then `last`.
fn command(program: &str, first: &str, last: &str) -> (words: Vec<String>)
    ensures
        text::views(words@) == seq![program@, first@, last@],
{
    let mut words: Vec<String> = Vec::new();
    words.push(program.to_owned());
    words.push(first.to_owned());
    words.push(last.to_owned());
    assert(text::views(words@) =~= seq![program@, first@, last@]);
    words
}

/// The commands that let the input group use a node again.
pub open spec fn restore_lines(path: Seq<char>) -> Seq<Seq<Seq<char>>> {
    seq![seq!["chgrp"@, "input"@, path], seq!["setfacl"@, "-b"@, path]]
}

/// The commands that let the input group use a node again.
pub fn restore_commands(path: &str) -> (lines: Vec<Vec<String>>)
    ensures
        command_lines(lines@) == restore_lines(path@),
{
    let mut lines: Vec<Vec<String>> = Vec::new();
    lines.push(command("chgrp", "input", path));
    lines.push(command("setfacl", "-b", path));
    assert(command_lines(lines@) =~= restore_lines(path@));
    lines
}

/// The command that makes udev read its rules again.
pub open spec fn reload_rules_line() -> Seq<Seq<char>> {
    seq!["udevadm"@, "control"@, "--reload-rules"@]
}

/// The command that makes udev see the children of `parent` leave or appear.
pub open spec fn trigger_line(action: Seq<char>, parent: Seq<char>) -> Seq<Seq<char>> {
    seq!["udevadm"@, "trigger"@, "--action"@, action, "-b"@, parent]
}

/// The commands that apply the rules to the children of `parent`.
pub open spec fn reload_children_lines(parent: Seq<char>) -> Seq<Seq<Seq<char>>> {
    seq![reload_rules_line(), trigger_line("remove"@, parent), trigger_line("add"@, parent)]
}

/// The commands that apply the rules to all devices.
pub open spec fn reload_all_lines() -> Seq<Seq<Seq<char>>> {
    seq![reload_rules_line(), seq!["udevadm"@, "trigger"@]]
}

fn trigger(action: &str, parent: &str) -> (words: Vec<String>)
    ensures
        text::views(words@) == trigger_line(action@, parent@),
{
    let mut words: Vec<String> = Vec::new();
    words.push("udevadm".to_owned());
    words.push("trigger".to_owned());
    words.push("--action".to_owned());
    words.push(action.to_owned());
    words.push("-b".to_owned());
    words.push(parent.to_owned());
    assert(text::views(words@) =~= trigger_line(action@, parent@));
    words
}

/// The commands that make udev evaluate its rules on the children of the given device path.
pub fn reload_children(parent: &str) -> (lines: Vec<Vec<String>>)
    ensures
        command_lines(lines@) == reload_children_lines(parent@),
{
    let mut lines: Vec<Vec<String>> = Vec::new();
    lines.push(command("udevadm", "control", "--reload-rules"));
    lines.push(trigger("remove", parent));
    lines.push(trigger("add", parent));
    assert(command_lines(lines@) =~= reload_children_lines(parent@));
    lines
}

/// The commands that make udev evaluate its rules on all devices.
pub fn reload_all() -> (lines: Vec<Vec<String>>)
    ensures
        command_lines(lines@) == reload_all_lines(),
{
    let mut lines: Vec<Vec<String>> = Vec::new();
    lines.push(command("udevadm", "control", "--reload-rules"));
    let mut words: Vec<String> = Vec::new();
    words.push("udevadm".to_owned());
    words.push("trigger".to_owned());
    assert(text::views(words@) =~= seq!["udevadm"@, "trigger"@]);
    lines.push(words);
    assert(command_lines(lines@) =~= reload_all_lines());
    lines
}

} // verus!
