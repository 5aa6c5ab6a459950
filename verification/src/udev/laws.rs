//! What hiding a device and giving it back do, stated of their inputs and results.

use vstd::prelude::*;
#[allow(unused_imports)]
use vstd::utf8::*;

use crate::text;

use super::device;
use super::device::{Attribute, Device, DeviceModel};
use super::rules;
use super::rules::Stage;
use super::unhide;
use super::unhide::{NodeEntry, Step, UnhideStep};
use super::{
    discover_devices, get_device, has_flag, hide_device, join_path, locate_tool, rule_path,
    tool_places, DescriptionError, HideError, HideFlag, HidePlan, Tool, ToolSearch,
};

verus! {

/// The line of a rule that takes all permissions from the nodes of one sort.
pub open spec fn permission_line(
    stage: Stage,
    hidraw: bool,
    subsystem: Seq<char>,
    chmod: Seq<char>,
) -> Seq<char> {
    let nodes = if hidraw {
        "KERNEL==\"hidraw[0-9]*\", SUBSYSTEM==\""@
    } else {
        "KERNEL==\"js[0-9]*|event[0-9]*\", SUBSYSTEM==\""@
    };
    let access = match stage {
        Stage::Early => "\", MODE:=\"0000\", GROUP:=\"root\", RUN+=\""@,
        Stage::Late => "\", MODE=\"000\", GROUP=\"root\", TAG-=\"uaccess\", RUN+=\""@,
    };
    let end = match (stage, hidraw) {
        (
            Stage::Early,
            false,
        ) => " 000 /dev/input/%k\", SYMLINK+=\"inputplumber/by-hidden/%k\"\n"@,
        (Stage::Early, true) => " 000 /dev/%k\", SYMLINK+=\"inputplumber/by-hidden/%k\"\n"@,
        (Stage::Late, false) => " 000 /dev/input/%k\"\n"@,
        (Stage::Late, true) => " 000 /dev/%k\"\n"@,
    };
    nodes + subsystem + access + chmod + end
}

/// The line of a rule that moves the nodes of one sort away.
pub open spec fn moving_line(hidraw: bool, subsystem: Seq<char>, mv: Seq<char>) -> Seq<char> {
    if hidraw {
        "KERNEL==\"hidraw[0-9]*\", SUBSYSTEM==\""@ + subsystem + "\", RUN+=\""@ + mv
            + " /dev/%k /dev/inputplumber/sources/%k\"\n"@
    } else {
        "KERNEL==\"js[0-9]*|event[0-9]*\", SUBSYSTEM==\""@ + subsystem + "\", RUN+=\""@ + mv
            + " /dev/input/%k /dev/inputplumber/sources/%k\"\n"@
    }
}

/// What stands before the lines of a rule: who it is for, and what it applies to.
pub open spec fn rule_head(name: Seq<char>, match_rule: Seq<char>) -> Seq<char> {
    "# Hides devices stemming from "@ + name
        + "\n# Managed by InputPlumber, this file will be autoremoved during configuration changes.\n"@
        + match_rule
        + ", GOTO=\"inputplumber_valid\"\nGOTO=\"inputplumber_end\"\nLABEL=\"inputplumber_valid\"\n"@
}

/// The whole text of a hide rule: its head, then for each sort of nodes the line that takes the
/// permissions, where permissions are changed, and the line that moves them, where nodes are moved.
/// Each line names the subsystem of the device and the tool that was found.
pub proof fn law_lines_of_a_hide_rule(
    stage: Stage,
    name: Seq<char>,
    subsystem: Seq<char>,
    match_rule: Seq<char>,
    flags: Seq<HideFlag>,
    chmod: ToolSearch,
    mv: ToolSearch,
)
    ensures
        ({
            let chmod_path = super::located(Tool::Chmod, chmod)->Ok_0;
            let mv_path = super::located(Tool::Mv, mv)->Ok_0;
            let permissions = if flags.contains(HideFlag::ChangePermissions) {
                permission_line(stage, false, subsystem, chmod_path) + permission_line(
                    stage,
                    true,
                    subsystem,
                    chmod_path,
                )
            } else {
                Seq::<char>::empty()
            };
            let moves = if flags.contains(HideFlag::MoveSourceDevice) {
                moving_line(false, subsystem, mv_path) + moving_line(true, subsystem, mv_path)
            } else {
                Seq::<char>::empty()
            };
            super::hiding_rule(stage, name, subsystem, match_rule, flags, chmod, mv) == rule_head(
                name,
                match_rule,
            ) + permissions + "\n"@ + moves + "\nLABEL=\"inputplumber_end\"\n"@
        }),
{
    let chmod_path = super::located(Tool::Chmod, chmod)->Ok_0;
    let mv_path = super::located(Tool::Mv, mv)->Ok_0;
    assert(rules::chmod_lines(stage, subsystem, chmod_path) =~= permission_line(
        stage,
        false,
        subsystem,
        chmod_path,
    ) + permission_line(stage, true, subsystem, chmod_path));
    assert(rules::move_lines(subsystem, mv_path) =~= moving_line(false, subsystem, mv_path)
        + moving_line(true, subsystem, mv_path));
}

/// Devices of different subsystems get different rules, where the rules do anything.
pub proof fn law_rules_differ_by_subsystem(
    stage: Stage,
    name: Seq<char>,
    subsystem: Seq<char>,
    other: Seq<char>,
    match_rule: Seq<char>,
    flags: Seq<HideFlag>,
    chmod: ToolSearch,
    mv: ToolSearch,
)
    requires
        flags.contains(HideFlag::ChangePermissions) || flags.contains(HideFlag::MoveSourceDevice),
        subsystem != other,
    ensures
        super::hiding_rule(stage, name, subsystem, match_rule, flags, chmod, mv)
            != super::hiding_rule(stage, name, other, match_rule, flags, chmod, mv),
{
    let rule = super::hiding_rule(stage, name, subsystem, match_rule, flags, chmod, mv);
    let second = super::hiding_rule(stage, name, other, match_rule, flags, chmod, mv);
    let chmod_path = super::located(Tool::Chmod, chmod)->Ok_0;
    let mv_path = super::located(Tool::Mv, mv)->Ok_0;
    let head = rule_head(name, match_rule);
    let end = "\nLABEL=\"inputplumber_end\"\n"@;
    law_lines_of_a_hide_rule(stage, name, subsystem, match_rule, flags, chmod, mv);
    law_lines_of_a_hide_rule(stage, name, other, match_rule, flags, chmod, mv);
    lemma_length_of_lines(stage, false, subsystem, other, chmod_path, mv_path);
    lemma_length_of_lines(stage, true, subsystem, other, chmod_path, mv_path);
    let none = Seq::<char>::empty();
    let growth = subsystem.len() - other.len();
    let lines = (
        permission_line(stage, false, subsystem, chmod_path),
        permission_line(stage, true, subsystem, chmod_path),
    );
    let other_lines = (
        permission_line(stage, false, other, chmod_path),
        permission_line(stage, true, other, chmod_path),
    );
    let moves = (moving_line(false, subsystem, mv_path), moving_line(true, subsystem, mv_path));
    let other_moves = (moving_line(false, other, mv_path), moving_line(true, other, mv_path));
    if rule == second {
        if !flags.contains(HideFlag::ChangePermissions) {
            lemma_first_line(head + none + "\n"@, moves, other_moves, end, end, growth);
        } else if flags.contains(HideFlag::MoveSourceDevice) {
            lemma_first_line_before(
                head,
                lines,
                other_lines,
                moves.0 + moves.1,
                other_moves.0 + other_moves.1,
                end,
                growth,
            );
        } else {
            lemma_first_line_before(head, lines, other_lines, none, none, end, growth);
        }
        lemma_lines_tell_the_subsystem(stage, false, subsystem, other, chmod_path, mv_path);
    }
}

/// Where two lines with equal beginnings and ends around them give equal texts, the first lines are
/// equal.
proof fn lemma_first_line(
    head: Seq<char>,
    lines: (Seq<char>, Seq<char>),
    other: (Seq<char>, Seq<char>),
    end: Seq<char>,
    other_end: Seq<char>,
    growth: int,
)
    requires
        head + (lines.0 + lines.1) + end == head + (other.0 + other.1) + other_end,
        lines.0.len() - other.0.len() == growth,
        lines.1.len() - other.1.len() == growth,
        end.len() - other_end.len() == 0 || end.len() - other_end.len() == 2 * growth,
    ensures
        lines.0 == other.0,
{
    let text = head + (lines.0 + lines.1) + end;
    let other_text = head + (other.0 + other.1) + other_end;
    let start = head.len() as int;
    assert(text.len() == other_text.len());
    assert(text.subrange(start, start + lines.0.len()) =~= lines.0);
    assert(other_text.subrange(start, start + other.0.len()) =~= other.0);
}

/// The same, with more lines behind them.
proof fn lemma_first_line_before(
    head: Seq<char>,
    lines: (Seq<char>, Seq<char>),
    other: (Seq<char>, Seq<char>),
    moves: Seq<char>,
    other_moves: Seq<char>,
    end: Seq<char>,
    growth: int,
)
    requires
        head + (lines.0 + lines.1) + "\n"@ + moves + end == head + (other.0 + other.1) + "\n"@
            + other_moves + end,
        lines.0.len() - other.0.len() == growth,
        lines.1.len() - other.1.len() == growth,
        moves.len() - other_moves.len() == 0 || moves.len() - other_moves.len() == 2 * growth,
    ensures
        lines.0 == other.0,
{
    let rest = "\n"@ + moves + end;
    let other_rest = "\n"@ + other_moves + end;
    assert(head + (lines.0 + lines.1) + "\n"@ + moves + end =~= head + (lines.0 + lines.1) + rest);
    assert(head + (other.0 + other.1) + "\n"@ + other_moves + end =~= head + (other.0 + other.1)
        + other_rest);
    lemma_first_line(head, lines, other, rest, other_rest, growth);
}

/// Lines grow with the subsystem that they name.
proof fn lemma_length_of_lines(
    stage: Stage,
    hidraw: bool,
    subsystem: Seq<char>,
    other: Seq<char>,
    chmod: Seq<char>,
    mv: Seq<char>,
)
    ensures
        permission_line(stage, hidraw, subsystem, chmod).len() - subsystem.len()
            == permission_line(stage, hidraw, other, chmod).len() - other.len(),
        moving_line(hidraw, subsystem, mv).len() - subsystem.len() == moving_line(
            hidraw,
            other,
            mv,
        ).len() - other.len(),
{
}

/// Equal lines name equal subsystems.
proof fn lemma_lines_tell_the_subsystem(
    stage: Stage,
    hidraw: bool,
    subsystem: Seq<char>,
    other: Seq<char>,
    chmod: Seq<char>,
    mv: Seq<char>,
)
    requires
        permission_line(stage, hidraw, subsystem, chmod) == permission_line(
            stage,
            hidraw,
            other,
            chmod,
        ) || moving_line(hidraw, subsystem, mv) == moving_line(hidraw, other, mv),
    ensures
        subsystem == other,
{
    lemma_length_of_lines(stage, hidraw, subsystem, other, chmod, mv);
    let nodes = if hidraw {
        "KERNEL==\"hidraw[0-9]*\", SUBSYSTEM==\""@
    } else {
        "KERNEL==\"js[0-9]*|event[0-9]*\", SUBSYSTEM==\""@
    };
    let start = nodes.len() as int;
    assert(permission_line(stage, hidraw, subsystem, chmod).subrange(
        start,
        start + subsystem.len(),
    ) =~= subsystem);
    assert(permission_line(stage, hidraw, other, chmod).subrange(start, start + other.len())
        =~= other);
    assert(moving_line(hidraw, subsystem, mv).subrange(start, start + subsystem.len())
        =~= subsystem);
    assert(moving_line(hidraw, other, mv).subrange(start, start + other.len()) =~= other);
}

/// A tool that a rule does not need leaves no trace in it.
pub proof fn law_unneeded_tool_changes_nothing(
    stage: Stage,
    name: Seq<char>,
    subsystem: Seq<char>,
    match_rule: Seq<char>,
    flags: Seq<HideFlag>,
    chmod: ToolSearch,
    other_chmod: ToolSearch,
    mv: ToolSearch,
    other_mv: ToolSearch,
)
    requires
        flags.contains(HideFlag::ChangePermissions) ==> chmod == other_chmod,
        flags.contains(HideFlag::MoveSourceDevice) ==> mv == other_mv,
    ensures
        super::hiding_rule(stage, name, subsystem, match_rule, flags, chmod, mv)
            == super::hiding_rule(
            stage,
            name,
            subsystem,
            match_rule,
            flags,
            other_chmod,
            other_mv,
        ),
{
}

/// A device can be hidden exactly if it has a parent and a match rule and the tools that the rules
/// need were found, and otherwise the first of these that is missing is named.
pub proof fn law_when_hiding_fails(
    has_parent: bool,
    has_match_rule: bool,
    flags: Seq<HideFlag>,
    chmod: ToolSearch,
    mv: ToolSearch,
)
    ensures
        ({
            let failure = super::hide_failure(has_parent, has_match_rule, flags, chmod, mv);
            let changes = flags.contains(HideFlag::ChangePermissions);
            let moves = flags.contains(HideFlag::MoveSourceDevice);
            let known = has_parent && has_match_rule;
            let chmod_path = super::located(Tool::Chmod, chmod);
            let mv_path = super::located(Tool::Mv, mv);
            &&& failure is None <==> known && (changes ==> chmod_path is Ok) && (moves
                ==> mv_path is Ok)
            &&& !has_parent ==> failure == Some(HideError::NoParent)
            &&& has_parent && !has_match_rule ==> failure == Some(HideError::NoMatchRule)
            &&& known && changes && chmod_path is Err ==> failure == Some(chmod_path->Err_0)
            &&& known && (changes ==> chmod_path is Ok) && moves && mv_path is Err ==> failure
                == Some(mv_path->Err_0)
        }),
{
}

/// A tool is taken from the first usual place that has it. Where none has it, it is taken from where
/// the search of the PATH found it, without white space around it, and where that failed, the tool
/// is named as missing.
pub proof fn law_where_a_tool_is_found(tool: Tool, search: ToolSearch)
    ensures
        ({
            let name = if tool == Tool::Chmod {
                "chmod"@
            } else {
                "mv"@
            };
            let path = super::located(tool, search);
            let found = search.present@;
            &&& found[0] ==> path == Ok::<Seq<char>, HideError>("/bin/"@ + name)
            &&& !found[0] && found[1] ==> path == Ok::<Seq<char>, HideError>("/usr/bin/"@ + name)
            &&& !found[0] && !found[1] && found[2] ==> path == Ok::<Seq<char>, HideError>(
                "/run/current-system/sw/bin/"@ + name,
            )
            &&& !found[0] && !found[1] && !found[2] ==> {
                &&& search.which is None ==> path == Err::<Seq<char>, HideError>(
                    HideError::ToolNotFound(tool),
                )
                &&& search.which matches Some(output) ==> {
                    &&& !output.success ==> path == Err::<Seq<char>, HideError>(
                        HideError::ToolNotFound(tool),
                    )
                    &&& output.success && !valid_utf8(output.stdout@) ==> path == Err::<
                        Seq<char>,
                        HideError,
                    >(HideError::ToolPathNotUtf8(tool))
                    &&& output.success && valid_utf8(output.stdout@) ==> path == Ok::<
                        Seq<char>,
                        HideError,
                    >(text::trimmed(decode_utf8(output.stdout@)))
                }
            }
        }),
{
}

/// The files of the two rules of a device, by its name.
pub proof fn law_files_of_the_rules(name: Seq<char>)
    ensures
        super::path_in(super::RULES_PREFIX@, super::rule_name(Stage::Early, name))
            == "/run/udev/rules.d"@ + "/"@ + ("50"@ + "-inputplumber-hide-"@ + name
            + "-early.rules"@),
        super::path_in(super::RULES_PREFIX@, super::rule_name(Stage::Late, name))
            == "/run/udev/rules.d"@ + "/"@ + ("96"@ + "-inputplumber-hide-"@ + name
            + "-late.rules"@),
{
}

/// Giving one device back: first its rules go, the early one and the late one, then its node is
/// moved, if it was, then the rules are applied to the children of its parent, if that is known, and
/// last come the permissions. Nothing else is done, and of an unknown device only the last.
pub proof fn law_order_of_unhiding(name: Seq<char>, parent: Option<Seq<char>>, moved: bool)
    ensures
        ({
            let steps = unhide::unhide_steps(Some(name), parent, moved);
            let rules = "/run/udev/rules.d"@ + "/"@;
            &&& steps.len() == 3 + (if moved {
                1int
            } else {
                0
            }) + (if parent is Some {
                1int
            } else {
                0
            })
            &&& steps[0] == Step::RemoveRule(
                rules + ("50"@ + "-inputplumber-hide-"@ + name + "-early.rules"@),
            )
            &&& steps[1] == Step::RemoveRule(
                rules + ("96"@ + "-inputplumber-hide-"@ + name + "-late.rules"@),
            )
            &&& moved ==> {
                &&& steps[2] matches Step::RestoreNode { from, to }
                &&& from == "/dev/inputplumber/sources"@ + "/"@ + name
                &&& to == (if "event"@.is_prefix_of(name) || "js"@.is_prefix_of(name) {
                    "/dev/input/"@ + name
                } else {
                    "/dev/"@ + name
                })
            }
            &&& parent matches Some(parent) ==> steps[steps.len() - 2] == Step::ReloadChildren(
                parent,
            )
            &&& steps[steps.len() - 1] == Step::RestorePermissions
        }),
        unhide::unhide_steps(None, parent, moved) == seq![Step::RestorePermissions],
{
}

/// Giving all devices back moves every node that was moved away to where it belongs, each once and
/// in order, after the rules are removed and before they are applied. The permissions come last.
pub proof fn law_all_nodes_are_moved_back(
    files: Seq<Seq<char>>,
    nodes: Seq<Seq<char>>,
    i: int,
)
    requires
        0 <= i < nodes.len(),
    ensures
        ({
            let steps = unhide::unhide_all_steps(files, nodes);
            let first = steps.len() - 2 - nodes.len();
            let name = nodes[i];
            &&& first >= 0
            &&& forall|k: int| 0 <= k < first ==> #[trigger] steps[k] is RemoveRule
            &&& steps[first + i] matches Step::RestoreNode { from, to }
            &&& from == "/dev/inputplumber/sources"@ + "/"@ + name
            &&& to == (if "event"@.is_prefix_of(name) || "js"@.is_prefix_of(name) {
                "/dev/input/"@ + name
            } else {
                "/dev/"@ + name
            })
        }),
{
    lemma_removals(files);
    let removals = unhide::rule_removals(files);
    let steps = unhide::unhide_all_steps(files, nodes);
    assert forall|k: int| 0 <= k < removals.len() implies #[trigger] steps[k] is RemoveRule by {
        assert(steps[k] == removals[k]);
    }
    assert(steps[removals.len() + i] == unhide::move_back(nodes[i]));
}

/// Giving all devices back ends with a reload of all rules and the permissions, and it moves nothing
/// but the nodes that were moved away.
pub proof fn law_end_of_unhiding_all(files: Seq<Seq<char>>, nodes: Seq<Seq<char>>)
    ensures
        ({
            let steps = unhide::unhide_all_steps(files, nodes);
            &&& steps.len() >= 2 + nodes.len()
            &&& steps[steps.len() - 2] == Step::ReloadAll
            &&& steps[steps.len() - 1] == Step::RestorePermissions
            &&& forall|k: int|
                0 <= k < steps.len() && #[trigger] steps[k] is RestoreNode ==> steps.len() - 2
                    - nodes.len() <= k < steps.len() - 2
        }),
{
    lemma_removals(files);
    let removals = unhide::rule_removals(files);
    let steps = unhide::unhide_all_steps(files, nodes);
    assert forall|k: int| 0 <= k < steps.len() && #[trigger] steps[k] is RestoreNode implies
        steps.len() - 2 - nodes.len() <= k < steps.len() - 2 by {
        if k < removals.len() {
            assert(steps[k] == removals[k]);
        }
    }
}

/// What is removed are rules, one for each marked file at most.
proof fn lemma_removals(files: Seq<Seq<char>>)
    ensures
        forall|k: int|
            0 <= k < unhide::rule_removals(files).len() ==> (#[trigger] unhide::rule_removals(
                files,
            )[k]) is RemoveRule,
    decreases files.len(),
{
    if files.len() > 0 {
        lemma_removals(files.drop_last());
        let before = unhide::rule_removals(files.drop_last());
        assert forall|k: int| 0 <= k < unhide::rule_removals(files).len() implies (
        #[trigger] unhide::rule_removals(files)[k]) is RemoveRule by {
            if k < before.len() {
                assert(before[k] is RemoveRule);
            }
        }
    }
}

/// The marked files of a directory are removed each once: two parts of the directory give what they
/// give on their own.
pub proof fn law_rules_are_removed_file_by_file(files: Seq<Seq<char>>, more: Seq<Seq<char>>)
    ensures
        unhide::rule_removals(files + more) == unhide::rule_removals(files)
            + unhide::rule_removals(more),
        unhide::rule_removals(files).len() <= files.len(),
    decreases files.len() + more.len(),
{
    if more.len() > 0 {
        assert((files + more).drop_last() =~= files + more.drop_last());
        assert((files + more).last() == more.last());
        law_rules_are_removed_file_by_file(files, more.drop_last());
        assert(unhide::rule_removals(files + more) =~= unhide::rule_removals(files)
            + unhide::rule_removals(more));
    } else {
        assert(files + more =~= files);
        assert(unhide::rule_removals(files) + unhide::rule_removals(more)
            =~= unhide::rule_removals(files));
        if files.len() > 0 {
            law_rules_are_removed_file_by_file(files.drop_last(), more);
        }
    }
}

/// The entry is a node that nobody may use: an event or joystick node, or a hidraw node in the
/// device directory, whose mode could be read and has none of the nine permission bits.
pub open spec fn without_permissions(dir: Seq<char>, entry: NodeEntry) -> bool {
    &&& "event"@.is_prefix_of(entry.name@) || "js"@.is_prefix_of(entry.name@) || (dir == "/dev"@
        && "hidraw"@.is_prefix_of(entry.name@))
    &&& entry.mode matches Some(mode)
    &&& mode & 0o777 == 0
}

/// A path is restored exactly if it is that of a node without any permission. A node with at least
/// one permission bit is never picked out.
pub proof fn law_nodes_without_permissions_are_restored(
    dir: Seq<char>,
    entries: Seq<NodeEntry>,
    path: Seq<char>,
)
    ensures
        unhide::hidden_nodes(dir, entries).contains(path) <==> exists|i: int|
            0 <= i < entries.len() && #[trigger] without_permissions(dir, entries[i]) && path
                == dir + "/"@ + entries[i].name@,
    decreases entries.len(),
{
    let after = unhide::hidden_nodes(dir, entries);
    if entries.len() > 0 {
        let shorter = entries.drop_last();
        let before = unhide::hidden_nodes(dir, shorter);
        let entry = entries.last();
        law_nodes_without_permissions_are_restored(dir, shorter, path);
        assert(without_permissions(dir, entry) == unhide::is_hidden_node(
            dir,
            entry.name@,
            entry.mode,
        ));
        if after.contains(path) {
            let at = choose|at: int| 0 <= at < after.len() && after[at] == path;
            if at < before.len() {
                assert(before[at] == path);
                let i = choose|i: int|
                    0 <= i < shorter.len() && #[trigger] without_permissions(dir, shorter[i])
                        && path == dir + "/"@ + shorter[i].name@;
                assert(without_permissions(dir, entries[i]));
            } else {
                assert(without_permissions(dir, entries[entries.len() - 1]));
            }
        }
        if exists|i: int|
            0 <= i < entries.len() && #[trigger] without_permissions(dir, entries[i]) && path == dir
                + "/"@ + entries[i].name@ {
            let i = choose|i: int|
                0 <= i < entries.len() && #[trigger] without_permissions(dir, entries[i]) && path
                    == dir + "/"@ + entries[i].name@;
            if i < shorter.len() {
                assert(without_permissions(dir, shorter[i]));
                assert(before.contains(path));
                let at = choose|at: int| 0 <= at < before.len() && before[at] == path;
                assert(after[at] == path);
            } else {
                assert(after[before.len() as int] == path);
            }
        }
    }
}

/// Nodes are picked out one by one and each once: a directory gives what its parts give.
pub proof fn law_nodes_are_restored_one_by_one(
    dir: Seq<char>,
    entries: Seq<NodeEntry>,
    more: Seq<NodeEntry>,
)
    ensures
        unhide::hidden_nodes(dir, entries + more) == unhide::hidden_nodes(dir, entries)
            + unhide::hidden_nodes(dir, more),
        unhide::hidden_nodes(dir, entries).len() <= entries.len(),
    decreases entries.len() + more.len(),
{
    if more.len() > 0 {
        assert((entries + more).drop_last() =~= entries + more.drop_last());
        assert((entries + more).last() == more.last());
        law_nodes_are_restored_one_by_one(dir, entries, more.drop_last());
        assert(unhide::hidden_nodes(dir, entries + more) =~= unhide::hidden_nodes(dir, entries)
            + unhide::hidden_nodes(dir, more));
    } else {
        assert(entries + more =~= entries);
        assert(unhide::hidden_nodes(dir, entries) + unhide::hidden_nodes(dir, more)
            =~= unhide::hidden_nodes(dir, entries));
        if entries.len() > 0 {
            law_nodes_are_restored_one_by_one(dir, entries.drop_last(), more);
        }
    }
}

/// Input nodes and all device nodes are looked through, and a node gets back what lets the input
/// group read and write it.
pub proof fn law_what_a_restored_node_gets()
    ensures
        unhide::node_dirs() == seq!["/dev/input"@, "/dev"@],
        super::RESTORED_MODE & 0o777 == 0o660,
        super::PERMISSION_BITS == 0o777,
{
    assert(0o660u32 & 0o777u32 == 0o660) by (bit_vector);
}

/// The commands for a node are about that node, and those for a parent about that parent.
pub proof fn law_commands_name_their_object(path: Seq<char>, parent: Seq<char>, i: int)
    requires
        0 <= i < 2,
    ensures
        unhide::restore_lines(path).len() == 2,
        unhide::restore_lines(path)[0] == seq!["chgrp"@, "input"@, path],
        unhide::restore_lines(path)[1] == seq!["setfacl"@, "-b"@, path],
        unhide::reload_children_lines(parent).len() == 3,
        unhide::reload_children_lines(parent)[0] == seq!["udevadm"@, "control"@, "--reload-rules"@],
        unhide::reload_children_lines(parent)[1 + i].len() == 6,
        unhide::reload_children_lines(parent)[1 + i][3] == (if i == 0 {
            "remove"@
        } else {
            "add"@
        }),
        unhide::reload_children_lines(parent)[1 + i][4] == "-b"@,
        unhide::reload_children_lines(parent)[1 + i][5] == parent,
        unhide::reload_all_lines() == seq![
            seq!["udevadm"@, "control"@, "--reload-rules"@],
            seq!["udevadm"@, "trigger"@],
        ],
{
}

/// A line of a description sets what its tag stands for to the value behind the tag, from which the
/// tag is removed wherever it occurs again, and leaves the rest as it was.
pub proof fn law_tagged_lines_set_their_fields(device: DeviceModel, value: Seq<char>)
    ensures
        device::with_line(device, "P: "@ + value) == (DeviceModel {
            path: text::without(value, "P: "@),
            ..device
        }),
        device::with_line(device, "M: "@ + value) == (DeviceModel {
            name: text::without(value, "M: "@),
            ..device
        }),
        device::with_line(device, "U: "@ + value) == (DeviceModel {
            subsystem: text::without(value, "U: "@),
            ..device
        }),
        device::with_line(device, "T: "@ + value) == (DeviceModel {
            device_type: text::without(value, "T: "@),
            ..device
        }),
        device::with_line(device, "D: "@ + value) == (DeviceModel {
            node: text::without(value, "D: "@),
            ..device
        }),
        device::with_line(device, "I: "@ + value) == (DeviceModel {
            network_index: text::without(value, "I: "@),
            ..device
        }),
        device::with_line(device, "N: "@ + value) == (DeviceModel {
            node_name: text::without(value, "N: "@),
            ..device
        }),
        device::with_line(device, "S: "@ + value) == (DeviceModel {
            symlink: device.symlink.push(text::without(value, "S: "@)),
            ..device
        }),
        device::with_line(device, "V: "@ + value) == (DeviceModel {
            driver: text::without(value, "V: "@),
            ..device
        }),
{
    reveal_strlit("P: ");
    reveal_strlit("M: ");
    reveal_strlit("U: ");
    reveal_strlit("T: ");
    reveal_strlit("D: ");
    reveal_strlit("I: ");
    reveal_strlit("N: ");
    reveal_strlit("S: ");
    reveal_strlit("V: ");
    super::lemma_other_tags('P', "P: "@ + value);
    super::lemma_other_tags('M', "M: "@ + value);
    super::lemma_other_tags('U', "U: "@ + value);
    super::lemma_other_tags('T', "T: "@ + value);
    super::lemma_other_tags('D', "D: "@ + value);
    super::lemma_other_tags('I', "I: "@ + value);
    super::lemma_other_tags('N', "N: "@ + value);
    super::lemma_other_tags('S', "S: "@ + value);
    super::lemma_other_tags('V', "V: "@ + value);
    lemma_value("P: "@, value);
    lemma_value("M: "@, value);
    lemma_value("U: "@, value);
    lemma_value("T: "@, value);
    lemma_value("D: "@, value);
    lemma_value("I: "@, value);
    lemma_value("N: "@, value);
    lemma_value("S: "@, value);
    lemma_value("V: "@, value);
}

/// The value behind a tag.
proof fn lemma_value(tag: Seq<char>, value: Seq<char>)
    requires
        tag.len() > 0,
    ensures
        device::tagged(tag + value, tag) == Some(text::without(value, tag)),
        !text::occurs(value, tag) ==> text::without(value, tag) == value,
{
    let line = tag + value;
    assert(line.subrange(0, tag.len() as int) =~= tag);
    assert(line.skip(tag.len() as int) =~= value);
    if !text::occurs(value, tag) {
        text::lemma_without_absent(value, tag);
    }
}

/// A line with a number sets that number where it can be read and fits, and zero where not.
pub proof fn law_number_lines_set_what_can_be_read(device: DeviceModel, value: Seq<char>)
    ensures
        device::with_line(device, "R: "@ + value) == (DeviceModel {
            number: match text::unsigned(text::without(value, "R: "@), u64::MAX as nat) {
                Some(number) => number as u64,
                None => 0,
            },
            ..device
        }),
        device::with_line(device, "Q: "@ + value) == (DeviceModel {
            sequence_num: match text::unsigned(text::without(value, "Q: "@), u64::MAX as nat) {
                Some(number) => number as u64,
                None => 0,
            },
            ..device
        }),
        device::with_line(device, "L: "@ + value) == (DeviceModel {
            symlink_priority: match text::unsigned(text::without(value, "L: "@), u32::MAX as nat) {
                Some(number) => number as u32,
                None => 0,
            },
            ..device
        }),
{
    reveal_strlit("R: ");
    reveal_strlit("Q: ");
    reveal_strlit("L: ");
    super::lemma_other_tags('R', "R: "@ + value);
    super::lemma_other_tags('Q', "Q: "@ + value);
    super::lemma_other_tags('L', "L: "@ + value);
    lemma_value("R: "@, value);
    lemma_value("Q: "@, value);
    lemma_value("L: "@, value);
}

/// Digits hold no letter.
proof fn lemma_digits_hold_no_tag(digits: Seq<char>, tag: Seq<char>)
    requires
        text::all_digits(digits),
        tag.len() > 0,
        !text::is_digit(tag[0]),
    ensures
        !text::occurs(digits, tag),
{
    if text::occurs(digits, tag) {
        let at = choose|at: int| text::matches_at(digits, tag, at);
        assert(digits.subrange(at, at + tag.len())[0] == tag[0]);
        assert(text::is_digit(digits[at]));
    }
}

/// A line with a number sets that number, where it fits, and zero where it does not.
pub proof fn law_number_lines_set_their_fields(device: DeviceModel, digits: Seq<char>)
    requires
        digits.len() > 0,
        text::all_digits(digits),
    ensures
        ({
            let number = text::decimal(digits);
            let wide = if number <= u64::MAX {
                number as u64
            } else {
                0
            };
            let narrow = if number <= u32::MAX {
                number as u32
            } else {
                0
            };
            &&& device::with_line(device, "R: "@ + digits) == (DeviceModel {
                number: wide,
                ..device
            })
            &&& device::with_line(device, "Q: "@ + digits) == (DeviceModel {
                sequence_num: wide,
                ..device
            })
            &&& device::with_line(device, "L: "@ + digits) == (DeviceModel {
                symlink_priority: narrow,
                ..device
            })
        }),
{
    reveal_strlit("R: ");
    reveal_strlit("Q: ");
    reveal_strlit("L: ");
    lemma_digits_hold_no_tag(digits, "R: "@);
    lemma_digits_hold_no_tag(digits, "Q: "@);
    lemma_digits_hold_no_tag(digits, "L: "@);
    super::lemma_other_tags('R', "R: "@ + digits);
    super::lemma_other_tags('Q', "Q: "@ + digits);
    super::lemma_other_tags('L', "L: "@ + digits);
    lemma_value("R: "@, digits);
    lemma_value("Q: "@, digits);
    lemma_value("L: "@, digits);
    assert(text::is_digit(digits[0]));
    assert(text::after_plus(digits) == digits);
}

/// A property line sets the property before its first equals sign to what stands behind that. Without
/// an equals sign it changes nothing.
pub proof fn law_property_lines(
    device: DeviceModel,
    value: Seq<char>,
    key: Seq<char>,
    held: Seq<char>,
)
    ensures
        !text::without(value, "E: "@).contains('=') ==> device::with_line(device, "E: "@ + value)
            == device,
        !key.contains('=') && text::without(value, "E: "@) == key.push('=') + held
            ==> device::with_line(device, "E: "@ + value) == (DeviceModel {
            properties: device.properties.insert(key, held),
            ..device
        }),
{
    reveal_strlit("E: ");
    super::lemma_other_tags('E', "E: "@ + value);
    lemma_value("E: "@, value);
    if !key.contains('=') && text::without(value, "E: "@) == key.push('=') + held {
        text::lemma_cut_at_separator(key, '=', held);
    }
}

/// A description starts from a device of which nothing is known, and each further line is taken up
/// after those before it.
pub proof fn law_lines_are_taken_up_in_order(lines: Seq<Seq<char>>, line: Seq<char>)
    ensures
        device::described_by(lines.push(line)) == device::with_line(
            device::described_by(lines),
            line,
        ),
        ({
            let unknown = device::described_by(Seq::empty());
            &&& unknown.path.len() == 0 && unknown.name.len() == 0 && unknown.subsystem.len() == 0
            &&& unknown.device_type.len() == 0 && unknown.node.len() == 0
            &&& unknown.network_index.len() == 0 && unknown.node_name.len() == 0
            &&& unknown.driver.len() == 0 && unknown.symlink.len() == 0
            &&& unknown.number == 0 && unknown.symlink_priority == 0 && unknown.sequence_num == 0
            &&& unknown.properties == Map::<Seq<char>, Seq<char>>::empty()
        }),
{
    assert(lines.push(line).drop_last() =~= lines);
}

/// What is known of a device is what its fields hold.
pub proof fn law_contents_of_a_device(device: Device, key: Seq<char>, i: int)
    ensures
        device@.path == device.path@ && device@.name == device.name@,
        device@.number == device.number && device@.sequence_num == device.sequence_num,
        device@.symlink_priority == device.symlink_priority,
        device@.subsystem == device.subsystem@ && device@.device_type == device.device_type@,
        device@.node == device.node@ && device@.network_index == device.network_index@,
        device@.node_name == device.node_name@ && device@.driver == device.driver@,
        device@.symlink.len() == device.symlink@.len(),
        0 <= i < device.symlink@.len() ==> device@.symlink[i] == device.symlink@[i]@,
        device@.properties.contains_key(key) <==> device.properties@.contains_key(key),
        device.properties@.contains_key(key) ==> device@.properties[key]
            == device.properties@[key]@,
{
}

/// The contents of lists are those of their items.
pub proof fn law_contents_of_lists(
    strings: Seq<String>,
    attributes: Seq<Attribute>,
    steps: Seq<UnhideStep>,
    lines: Seq<Vec<String>>,
    i: int,
)
    ensures
        text::views(strings).len() == strings.len(),
        0 <= i < strings.len() ==> text::views(strings)[i] == strings[i]@,
        device::attributes(attributes).len() == attributes.len(),
        0 <= i < attributes.len() ==> device::attributes(attributes)[i] == (
            attributes[i].name@,
            attributes[i].value@,
        ),
        unhide::steps(steps).len() == steps.len(),
        0 <= i < steps.len() ==> unhide::steps(steps)[i] == (match steps[i] {
            UnhideStep::RemoveRule(path) => Step::RemoveRule(path@),
            UnhideStep::RestoreNode { from, to } => Step::RestoreNode { from: from@, to: to@ },
            UnhideStep::ReloadChildren(parent) => Step::ReloadChildren(parent@),
            UnhideStep::ReloadAll => Step::ReloadAll,
            UnhideStep::RestorePermissions => Step::RestorePermissions,
        }),
        unhide::command_lines(lines).len() == lines.len(),
        0 <= i < lines.len() ==> unhide::command_lines(lines)[i] == text::views(lines[i]@),
{
}

/// A device is discovered exactly if it has a node, in the order in which devices are found: each
/// adds itself behind those before it or nothing.
pub proof fn law_devices_with_a_node_are_discovered<D>(
    found: Seq<(D, Option<String>)>,
    device: D,
    node: Option<String>,
)
    ensures
        super::with_devnode(found.push((device, node))) == (if node is Some {
            super::with_devnode(found).push(device)
        } else {
            super::with_devnode(found)
        }),
        super::with_devnode(Seq::<(D, Option<String>)>::empty()).len() == 0,
{
    assert(found.push((device, node)).drop_last() =~= found);
}

/// The rules of a device that is hidden: an early one and a late one, each under the name of the
/// device, and each with the lines that its flags ask for. Every line names the subsystem of that
/// device.
pub proof fn law_rules_of_a_hidden_device(
    device: Device,
    parent: Option<String>,
    match_rule: Option<String>,
    flags: &[HideFlag],
    chmod: ToolSearch,
    mv: ToolSearch,
    plan: HidePlan,
)
    requires
        call_ensures(
            hide_device,
            (&device, parent, match_rule, flags, &chmod, &mv),
            Ok::<HidePlan, HideError>(plan),
        ),
    ensures
        ({
            let name = device.name@;
            let subsystem = device.subsystem@;
            let chmod_path = super::located(Tool::Chmod, chmod)->Ok_0;
            let mv_path = super::located(Tool::Mv, mv)->Ok_0;
            let head = rule_head(name, match_rule->0@);
            let end = "\nLABEL=\"inputplumber_end\"\n"@;
            let early = permission_line(Stage::Early, false, subsystem, chmod_path)
                + permission_line(Stage::Early, true, subsystem, chmod_path);
            let late = permission_line(Stage::Late, false, subsystem, chmod_path) + permission_line(
                Stage::Late,
                true,
                subsystem,
                chmod_path,
            );
            let moves = moving_line(false, subsystem, mv_path) + moving_line(
                true,
                subsystem,
                mv_path,
            );
            let none = Seq::<char>::empty();
            let changing = flags@.contains(HideFlag::ChangePermissions);
            let moving = flags@.contains(HideFlag::MoveSourceDevice);
            &&& parent is Some && plan.parent@ == parent->0@
            &&& match_rule is Some
            &&& plan.early.path@ == "/run/udev/rules.d"@ + "/"@ + ("50"@ + "-inputplumber-hide-"@
                + name + "-early.rules"@)
            &&& plan.late.path@ == "/run/udev/rules.d"@ + "/"@ + ("96"@ + "-inputplumber-hide-"@
                + name + "-late.rules"@)
            &&& changing && moving ==> plan.early.content@ == head + early + "\n"@ + moves + end
            &&& changing && moving ==> plan.late.content@ == head + late + "\n"@ + moves + end
            &&& changing && !moving ==> plan.early.content@ == head + early + "\n"@ + none + end
            &&& changing && !moving ==> plan.late.content@ == head + late + "\n"@ + none + end
            &&& !changing && moving ==> plan.early.content@ == head + none + "\n"@ + moves + end
            &&& !changing && moving ==> plan.late.content@ == head + none + "\n"@ + moves + end
        }),
{
    let name = device.name@;
    let subsystem = device.subsystem@;
    law_lines_of_a_hide_rule(Stage::Early, name, subsystem, match_rule->0@, flags@, chmod, mv);
    law_lines_of_a_hide_rule(Stage::Late, name, subsystem, match_rule->0@, flags@, chmod, mv);
    law_files_of_the_rules(name);
}

/// Hiding fails exactly if the device has no parent or no match rule, or a tool is needed and was not
/// found, and says which.
pub proof fn law_refusal_to_hide(
    device: Device,
    parent: Option<String>,
    match_rule: Option<String>,
    flags: &[HideFlag],
    chmod: ToolSearch,
    mv: ToolSearch,
    result: Result<HidePlan, HideError>,
)
    requires
        call_ensures(hide_device, (&device, parent, match_rule, flags, &chmod, &mv), result),
    ensures
        ({
            let chmod_path = super::located(Tool::Chmod, chmod);
            let mv_path = super::located(Tool::Mv, mv);
            let changing = flags@.contains(HideFlag::ChangePermissions);
            let moving = flags@.contains(HideFlag::MoveSourceDevice);
            let known = parent is Some && match_rule is Some;
            &&& result is Ok <==> known && (changing ==> chmod_path is Ok) && (moving
                ==> mv_path is Ok)
            &&& parent is None ==> (result matches Err(e) && e == HideError::NoParent)
            &&& parent is Some && match_rule is None ==> (result matches Err(e) && e
                == HideError::NoMatchRule)
            &&& known && changing && chmod_path is Err ==> (result matches Err(e) && e
                == chmod_path->Err_0)
            &&& known && (changing ==> chmod_path is Ok) && moving && mv_path is Err ==> (
            result matches Err(e) && e == mv_path->Err_0)
        }),
{
}

/// Two devices of different subsystems are hidden by different rules, early and late, where the flags
/// ask for any line.
pub proof fn law_subsystems_are_hidden_differently(
    device: Device,
    other: Device,
    parent: Option<String>,
    match_rule: Option<String>,
    flags: &[HideFlag],
    chmod: ToolSearch,
    mv: ToolSearch,
    plan: HidePlan,
    other_plan: HidePlan,
)
    requires
        flags@.contains(HideFlag::ChangePermissions) || flags@.contains(HideFlag::MoveSourceDevice),
        device.name@ == other.name@,
        device.subsystem@ != other.subsystem@,
        call_ensures(
            hide_device,
            (&device, parent, match_rule, flags, &chmod, &mv),
            Ok::<HidePlan, HideError>(plan),
        ),
        call_ensures(
            hide_device,
            (&other, parent, match_rule, flags, &chmod, &mv),
            Ok::<HidePlan, HideError>(other_plan),
        ),
    ensures
        plan.early.content@ != other_plan.early.content@,
        plan.late.content@ != other_plan.late.content@,
{
    law_rules_differ_by_subsystem(
        Stage::Early,
        device.name@,
        device.subsystem@,
        other.subsystem@,
        match_rule->0@,
        flags@,
        chmod,
        mv,
    );
    law_rules_differ_by_subsystem(
        Stage::Late,
        device.name@,
        device.subsystem@,
        other.subsystem@,
        match_rule->0@,
        flags@,
        chmod,
        mv,
    );
}

/// A tool is looked for in three usual places, and is located as the search for it found.
pub proof fn law_search_for_a_tool(
    tool: Tool,
    places: Vec<String>,
    search: ToolSearch,
    path: Result<String, HideError>,
)
    requires
        call_ensures(tool_places, (tool,), places),
        call_ensures(locate_tool, (tool, &search), path),
    ensures
        ({
            let name = if tool == Tool::Chmod {
                "chmod"@
            } else {
                "mv"@
            };
            let found = search.present@;
            let elsewhere = !found[0] && !found[1] && !found[2];
            &&& places@.len() == 3
            &&& places@[0]@ == "/bin/"@ + name
            &&& places@[1]@ == "/usr/bin/"@ + name
            &&& places@[2]@ == "/run/current-system/sw/bin/"@ + name
            &&& found[0] ==> (path matches Ok(path) && path@ == places@[0]@)
            &&& !found[0] && found[1] ==> (path matches Ok(path) && path@ == places@[1]@)
            &&& !found[0] && !found[1] && found[2] ==> (path matches Ok(path) && path@
                == places@[2]@)
            &&& elsewhere && search.which is None ==> (path matches Err(e) && e
                == HideError::ToolNotFound(tool))
            &&& elsewhere && search.which is Some ==> {
                let output = search.which->0;
                &&& !output.success ==> (path matches Err(e) && e == HideError::ToolNotFound(tool))
                &&& output.success && !valid_utf8(output.stdout@) ==> (path matches Err(e) && e
                    == HideError::ToolPathNotUtf8(tool))
                &&& output.success && valid_utf8(output.stdout@) ==> (path matches Ok(path) && path@
                    == text::trimmed(decode_utf8(output.stdout@)))
            }
        }),
{
    let listed = text::views(places@);
    assert(listed.len() == 3);
    assert(listed[0] == places@[0]@ && listed[1] == places@[1]@ && listed[2] == places@[2]@);
}

/// A flag is found exactly if it is given.
pub proof fn law_flag_is_found(flags: &[HideFlag], flag: HideFlag, found: bool)
    requires
        call_ensures(has_flag, (flags, flag), found),
    ensures
        found <==> exists|i: int| 0 <= i < flags@.len() && #[trigger] flags@[i] == flag,
{
}

/// The path of a file is that of its directory, a slash and its name, and so is that of a rule.
pub proof fn law_paths_of_files(
    dir: &str,
    name: &str,
    path: String,
    early: String,
    late: String,
    source: String,
    node: String,
)
    requires
        call_ensures(join_path, (dir, name), path),
        call_ensures(rule_path, (Stage::Early, name), early),
        call_ensures(rule_path, (Stage::Late, name), late),
        call_ensures(unhide::source_node_path, (name,), source),
        call_ensures(unhide::device_node_path, (name,), node),
    ensures
        path@ == dir@ + "/"@ + name@,
        early@ == "/run/udev/rules.d"@ + "/"@ + ("50"@ + "-inputplumber-hide-"@ + name@
            + "-early.rules"@),
        late@ == "/run/udev/rules.d"@ + "/"@ + ("96"@ + "-inputplumber-hide-"@ + name@
            + "-late.rules"@),
        source@ == "/dev/inputplumber/sources"@ + "/"@ + name@,
        "event"@.is_prefix_of(name@) || "js"@.is_prefix_of(name@) ==> node@ == "/dev/input/"@
            + name@,
        !"event"@.is_prefix_of(name@) && !"js"@.is_prefix_of(name@) ==> node@ == "/dev/"@ + name@,
{
}

/// A refusal to hide a device says why.
pub proof fn law_refusals_name_their_reason(error: HideError, message: String)
    requires
        call_ensures(HideError::message, (&error,), message),
    ensures
        error is NoParent ==> message@ == "Unable to determine parent for device"@,
        error is NoMatchRule ==> message@ == "Unable to create match rule for device"@,
        error == HideError::ToolNotFound(Tool::Chmod) ==> message@ == "Unable to determine "@
            + "chmod"@ + " command location"@,
        error == HideError::ToolNotFound(Tool::Mv) ==> message@ == "Unable to determine "@ + "mv"@
            + " command location"@,
        error == HideError::ToolPathNotUtf8(Tool::Chmod) ==> message@ == "The location of the "@
            + "chmod"@ + " command is not UTF-8"@,
        error == HideError::ToolPathNotUtf8(Tool::Mv) ==> message@ == "The location of the "@
            + "mv"@ + " command is not UTF-8"@,
{
}

/// What is done to give one device back, step by step.
pub proof fn law_giving_one_device_back(
    name: Option<&str>,
    parent: Option<&str>,
    moved: bool,
    list: Vec<UnhideStep>,
)
    requires
        call_ensures(unhide::unhide_device, (name, parent, moved), list),
    ensures
        ({
            let steps = list@;
            let rules = "/run/udev/rules.d"@ + "/"@;
            &&& steps.len() > 0 && steps[steps.len() - 1] is RestorePermissions
            &&& name is None ==> steps.len() == 1
            &&& name matches Some(name) ==> {
                &&& steps.len() == 3 + (if moved {
                    1int
                } else {
                    0
                }) + (if parent is Some {
                    1int
                } else {
                    0
                })
                &&& steps[0] matches UnhideStep::RemoveRule(path)
                &&& path@ == rules + ("50"@ + "-inputplumber-hide-"@ + name@ + "-early.rules"@)
                &&& steps[1] matches UnhideStep::RemoveRule(path)
                &&& path@ == rules + ("96"@ + "-inputplumber-hide-"@ + name@ + "-late.rules"@)
                &&& moved ==> {
                    &&& steps[2] matches UnhideStep::RestoreNode { from, to }
                    &&& from@ == "/dev/inputplumber/sources"@ + "/"@ + name@
                    &&& to@ == (if "event"@.is_prefix_of(name@) || "js"@.is_prefix_of(name@) {
                        "/dev/input/"@ + name@
                    } else {
                        "/dev/"@ + name@
                    })
                }
                &&& parent is Some ==> {
                    &&& steps[steps.len() - 2] matches UnhideStep::ReloadChildren(path)
                    &&& path@ == parent->0@
                }
            }
        }),
{
    let named = match name {
        Some(name) => Some(name@),
        None => None,
    };
    let above = match parent {
        Some(parent) => Some(parent@),
        None => None,
    };
    let views = unhide::steps(list@);
    assert(views == unhide::unhide_steps(named, above, moved));
    assert(views.len() == list@.len());
    assert(forall|i: int| 0 <= i < list@.len() ==> #[trigger] views[i] == list@[i]@);
    if let Some(name) = name {
        law_order_of_unhiding(name@, above, moved);
        assert(views[0] == list@[0]@ && views[1] == list@[1]@ && views[2] == list@[2]@);
        assert(views[list@.len() - 2] == list@[list@.len() - 2]@);
    }
    assert(views[list@.len() - 1] == list@[list@.len() - 1]@);
}

/// What is done to give all devices back: every marked rule of the directory is removed, every node
/// that was moved away goes to its place, then the rules are applied, and the permissions come last.
pub proof fn law_giving_all_devices_back(
    files: Vec<String>,
    nodes: Vec<String>,
    list: Vec<UnhideStep>,
    i: int,
)
    requires
        call_ensures(unhide::unhide_all, (&files, &nodes), list),
        0 <= i < nodes@.len(),
    ensures
        ({
            let first = list@.len() - 2 - nodes@.len();
            let name = nodes@[i]@;
            &&& 0 <= first <= files@.len()
            &&& forall|k: int| 0 <= k < first ==> #[trigger] list@[k] is RemoveRule
            &&& list@[first + i] matches UnhideStep::RestoreNode { from, to }
            &&& from@ == "/dev/inputplumber/sources"@ + "/"@ + name
            &&& to@ == (if "event"@.is_prefix_of(name) || "js"@.is_prefix_of(name) {
                "/dev/input/"@ + name
            } else {
                "/dev/"@ + name
            })
        }),
{
    let views = unhide::steps(list@);
    assert(views.len() == list@.len());
    assert(forall|k: int| 0 <= k < list@.len() ==> #[trigger] views[k] == list@[k]@);
    law_all_nodes_are_moved_back(text::views(files@), text::views(nodes@), i);
    law_rules_are_removed_file_by_file(text::views(files@), Seq::empty());
    let first = list@.len() - 2 - nodes@.len();
    assert(text::views(nodes@)[i] == nodes@[i]@);
    assert(views[first + i] == list@[first + i]@);
    assert forall|k: int| 0 <= k < first implies #[trigger] list@[k] is RemoveRule by {
        assert(views[k] == list@[k]@);
    }
}

/// All devices are given back completely: the last two things done are the reload and the permissions,
/// and a rule is removed exactly if it is in the directory and marked.
pub proof fn law_all_marked_rules_are_removed(
    files: Vec<String>,
    nodes: Vec<String>,
    list: Vec<UnhideStep>,
    i: int,
)
    requires
        call_ensures(unhide::unhide_all, (&files, &nodes), list),
        0 <= i < files@.len(),
    ensures
        list@.len() >= 2,
        list@[list@.len() - 2] is ReloadAll,
        list@[list@.len() - 1] is RestorePermissions,
        text::occurs(files@[i]@, "-inputplumber-hide-"@) ==> unhide::steps(list@).contains(
            Step::RemoveRule("/run/udev/rules.d"@ + "/"@ + files@[i]@),
        ),
        !text::occurs(files@[i]@, "-inputplumber-hide-"@) ==> !unhide::steps(list@).contains(
            Step::RemoveRule("/run/udev/rules.d"@ + "/"@ + files@[i]@),
        ),
{
    let names = text::views(files@);
    let steps = unhide::unhide_all_steps(names, text::views(nodes@));
    law_end_of_unhiding_all(names, text::views(nodes@));
    assert(steps[steps.len() - 2] == list@[list@.len() - 2]@);
    assert(steps[steps.len() - 1] == list@[list@.len() - 1]@);
    assert(names[i] == files@[i]@);
    let step = Step::RemoveRule("/run/udev/rules.d"@ + "/"@ + names[i]);
    let removals = unhide::rule_removals(names);
    if text::occurs(names[i], "-inputplumber-hide-"@) {
        super::lemma_marked_rule_is_removed(names, names[i]);
        let at = choose|at: int| 0 <= at < removals.len() && removals[at] == step;
        assert(steps[at] == step);
    } else if steps.contains(step) {
        let at = choose|at: int| 0 <= at < steps.len() && steps[at] == step;
        lemma_removals(names);
        if at < removals.len() {
            assert(removals[at] == step);
            lemma_removed_names_are_marked(names, at);
            super::lemma_path_tells_the_name(
                "/run/udev/rules.d"@,
                names[i],
                choose|name: Seq<char>|
                    text::occurs(name, "-inputplumber-hide-"@) && removals[at] == Step::RemoveRule(
                        "/run/udev/rules.d"@ + "/"@ + name,
                    ),
            );
        }
    }
}

/// Giving all devices back does nothing beyond that: a step for each file and each node at most, the
/// reload and the permissions, and no reload of single devices.
pub proof fn law_number_of_steps(files: Vec<String>, nodes: Vec<String>, list: Vec<UnhideStep>)
    requires
        call_ensures(unhide::unhide_all, (&files, &nodes), list),
    ensures
        nodes@.len() + 2 <= list@.len() <= files@.len() + nodes@.len() + 2,
        list@[list@.len() - 2] is ReloadAll,
        list@[list@.len() - 1] is RestorePermissions,
        forall|k: int| 0 <= k < list@.len() ==> !(#[trigger] list@[k] is ReloadChildren),
{
    let names = text::views(files@);
    let moved = text::views(nodes@);
    let views = unhide::steps(list@);
    assert(views.len() == list@.len());
    law_end_of_unhiding_all(names, moved);
    law_rules_are_removed_file_by_file(names, Seq::empty());
    lemma_removals(names);
    let removals = unhide::rule_removals(names);
    assert(views[list@.len() - 2] == list@[list@.len() - 2]@);
    assert(views[list@.len() - 1] == list@[list@.len() - 1]@);
    assert forall|k: int| 0 <= k < list@.len() implies !(#[trigger] list@[k] is ReloadChildren) by {
        assert(views[k] == list@[k]@);
        if k < removals.len() {
            assert(views[k] == removals[k]);
        } else if k < removals.len() + moved.len() {
            assert(views[k] == unhide::move_back(moved[k - removals.len()]));
        }
    }
}

/// What is removed is marked.
proof fn lemma_removed_names_are_marked(files: Seq<Seq<char>>, at: int)
    requires
        0 <= at < unhide::rule_removals(files).len(),
    ensures
        exists|name: Seq<char>|
            text::occurs(name, "-inputplumber-hide-"@) && unhide::rule_removals(files)[at]
                == Step::RemoveRule("/run/udev/rules.d"@ + "/"@ + name),
    decreases files.len(),
{
    let before = unhide::rule_removals(files.drop_last());
    if at < before.len() {
        lemma_removed_names_are_marked(files.drop_last(), at);
        assert(unhide::rule_removals(files)[at] == before[at]);
    } else {
        let name = files.last();
        assert(text::occurs(name, "-inputplumber-hide-"@));
    }
}

/// The nodes of a directory whose permissions are restored are exactly those that nobody may use. A
/// node with at least one permission bit is never among them.
pub proof fn law_restored_nodes(
    dir: &str,
    entries: Vec<NodeEntry>,
    paths: Vec<String>,
    path: Seq<char>,
)
    requires
        call_ensures(unhide::restore_hidden_nodes_in_dir, (dir, &entries), paths),
    ensures
        (exists|j: int| 0 <= j < paths@.len() && #[trigger] paths@[j]@ == path) <==> exists|i: int|
            0 <= i < entries@.len() && #[trigger] without_permissions(dir@, entries@[i]) && path
                == dir@ + "/"@ + entries@[i].name@,
        paths@.len() <= entries@.len(),
{
    let listed = text::views(paths@);
    law_nodes_without_permissions_are_restored(dir@, entries@, path);
    law_nodes_are_restored_one_by_one(dir@, entries@, Seq::empty());
    if exists|j: int| 0 <= j < paths@.len() && #[trigger] paths@[j]@ == path {
        let j = choose|j: int| 0 <= j < paths@.len() && #[trigger] paths@[j]@ == path;
        assert(listed[j] == path);
    }
    if listed.contains(path) {
        let j = choose|j: int| 0 <= j < listed.len() && listed[j] == path;
        assert(paths@[j]@ == path);
    }
}

/// A node of its own in a directory is restored exactly if its name is that of an event or joystick
/// node, or of a hidraw node in the device directory, and its mode can be read and has none of the
/// nine permission bits.
pub proof fn law_single_node(dir: &str, entries: Vec<NodeEntry>, paths: Vec<String>)
    requires
        entries@.len() == 1,
        call_ensures(unhide::restore_hidden_nodes_in_dir, (dir, &entries), paths),
    ensures
        ({
            let name = entries@[0].name@;
            let mode = entries@[0].mode;
            let relevant = "event"@.is_prefix_of(name) || "js"@.is_prefix_of(name) || (dir@
                == "/dev"@ && "hidraw"@.is_prefix_of(name));
            &&& !relevant || mode is None ==> paths@.len() == 0
            &&& mode is Some && mode->0 & 0o777 != 0 ==> paths@.len() == 0
            &&& relevant && mode is Some && mode->0 & 0o777 == 0 ==> paths@.len() == 1
                && paths@[0]@ == dir@ + "/"@ + name
        }),
{
    reveal_with_fuel(unhide::hidden_nodes, 2);
    let listed = text::views(paths@);
    assert(listed.len() == paths@.len());
    assert(without_permissions(dir@, entries@[0]) == unhide::is_hidden_node(
        dir@,
        entries@[0].name@,
        entries@[0].mode,
    ));
    if paths@.len() > 0 {
        assert(listed[0] == paths@[0]@);
    }
}

/// Where nodes are looked for, and by which commands they and their parents are given back.
pub proof fn law_commands_that_give_back(
    dirs: Vec<String>,
    path: &str,
    restore: Vec<Vec<String>>,
    parent: &str,
    children: Vec<Vec<String>>,
    all: Vec<Vec<String>>,
)
    requires
        call_ensures(unhide::restore_hidden_input_permissions, (), dirs),
        call_ensures(unhide::restore_commands, (path,), restore),
        call_ensures(unhide::reload_children, (parent,), children),
        call_ensures(unhide::reload_all, (), all),
    ensures
        dirs@.len() == 2 && dirs@[0]@ == "/dev/input"@ && dirs@[1]@ == "/dev"@,
        restore@.len() == 2,
        text::views(restore@[0]@) == seq!["chgrp"@, "input"@, path@],
        text::views(restore@[1]@) == seq!["setfacl"@, "-b"@, path@],
        children@.len() == 3,
        text::views(children@[0]@) == seq!["udevadm"@, "control"@, "--reload-rules"@],
        text::views(children@[1]@) == seq![
            "udevadm"@,
            "trigger"@,
            "--action"@,
            "remove"@,
            "-b"@,
            parent@,
        ],
        text::views(children@[2]@) == seq![
            "udevadm"@,
            "trigger"@,
            "--action"@,
            "add"@,
            "-b"@,
            parent@,
        ],
        all@.len() == 2,
        text::views(all@[0]@) == seq!["udevadm"@, "control"@, "--reload-rules"@],
        text::views(all@[1]@) == seq!["udevadm"@, "trigger"@],
{
    let listed = text::views(dirs@);
    assert(listed.len() == dirs@.len());
    assert(listed[0] == dirs@[0]@ && listed[1] == dirs@[1]@);
    let lines = unhide::command_lines(restore@);
    assert(lines.len() == restore@.len());
    assert(lines[0] == text::views(restore@[0]@) && lines[1] == text::views(restore@[1]@));
    let lines = unhide::command_lines(children@);
    assert(lines.len() == children@.len());
    assert(lines[0] == text::views(children@[0]@) && lines[1] == text::views(children@[1]@));
    assert(lines[2] == text::views(children@[2]@));
    let lines = unhide::command_lines(all@);
    assert(lines.len() == all@.len());
    assert(lines[0] == text::views(all@[0]@) && lines[1] == text::views(all@[1]@));
}

/// A description is read exactly if it is UTF-8, and line by line.
pub proof fn law_description_of_a_device(output: Vec<u8>, result: Result<Device, DescriptionError>)
    requires
        call_ensures(get_device, (output,), result),
    ensures
        result is Ok <==> valid_utf8(output@),
        result matches Ok(device) ==> device@ == device::described_by(
            text::pieces(decode_utf8(output@), '\n'),
        ),
{
}

/// A new device knows nothing, and a line is taken up as the laws on lines say.
pub proof fn law_device_takes_lines_up(device: &mut Device, line: &str, new: Device)
    requires
        call_ensures(Device::new, (), new),
        call_ensures(Device::take_line, (device, line), ()),
    ensures
        new@ == device::described_by(Seq::empty()),
        final(device)@ == device::with_line(old(device)@, line@),
{
}

/// An attribute is made of its name and its value.
pub proof fn law_new_attribute(name: &str, value: &str, attribute: Attribute)
    requires
        call_ensures(Attribute::new, (name, value), attribute),
    ensures
        attribute.name@ == name@ && attribute.value@ == value@,
{
}

/// Among the devices that were found, one is discovered exactly if it has a node.
pub proof fn law_discovered_devices<D>(
    found: Vec<(D, Option<String>)>,
    devices: Vec<D>,
    device: D,
)
    requires
        call_ensures(discover_devices::<D>, (found,), devices),
    ensures
        devices@.contains(device) <==> exists|i: int|
            0 <= i < found@.len() && #[trigger] found@[i].0 == device && found@[i].1 is Some,
        devices@.len() <= found@.len(),
{
    lemma_discovered(found@, device);
}

proof fn lemma_discovered<D>(found: Seq<(D, Option<String>)>, device: D)
    ensures
        super::with_devnode(found).contains(device) <==> exists|i: int|
            0 <= i < found.len() && #[trigger] found[i].0 == device && found[i].1 is Some,
        super::with_devnode(found).len() <= found.len(),
    decreases found.len(),
{
    let all = super::with_devnode(found);
    if found.len() > 0 {
        let rest = found.drop_last();
        let before = super::with_devnode(rest);
        lemma_discovered(rest, device);
        if all.contains(device) {
            let at = choose|at: int| 0 <= at < all.len() && all[at] == device;
            if at < before.len() {
                assert(before[at] == device);
                let i = choose|i: int|
                    0 <= i < rest.len() && #[trigger] rest[i].0 == device && rest[i].1 is Some;
                assert(found[i].0 == device);
            } else {
                assert(found[found.len() - 1].0 == device);
            }
        }
        if exists|i: int| 0 <= i < found.len() && #[trigger] found[i].0 == device && found[i].1 is Some {
            let i = choose|i: int|
                0 <= i < found.len() && #[trigger] found[i].0 == device && found[i].1 is Some;
            if i < rest.len() {
                assert(rest[i].0 == device);
                let at = choose|at: int| 0 <= at < before.len() && before[at] == device;
                assert(all[at] == device);
            } else {
                assert(all[before.len() as int] == device);
            }
        }
    }
}

/// The parts of a rule, each by its own function.
pub proof fn law_parts_of_a_rule(
    stage: Stage,
    subsystem: &str,
    tool: &str,
    permissions: String,
    moves: String,
    name: &str,
    match_rule: &str,
    rule: String,
    first: &str,
    second: &str,
)
    requires
        call_ensures(rules::chmod_rule, (stage, subsystem, tool), permissions),
        call_ensures(rules::move_rule, (subsystem, tool), moves),
        call_ensures(rules::hide_rule, (name, match_rule, first, second), rule),
    ensures
        permissions@ == permission_line(stage, false, subsystem@, tool@) + permission_line(
            stage,
            true,
            subsystem@,
            tool@,
        ),
        moves@ == moving_line(false, subsystem@, tool@) + moving_line(true, subsystem@, tool@),
        rule@ == rule_head(name@, match_rule@) + first@ + "\n"@ + second@
            + "\nLABEL=\"inputplumber_end\"\n"@,
{
    assert(rules::chmod_lines(stage, subsystem@, tool@) =~= permission_line(
        stage,
        false,
        subsystem@,
        tool@,
    ) + permission_line(stage, true, subsystem@, tool@));
    assert(rules::move_lines(subsystem@, tool@) =~= moving_line(false, subsystem@, tool@)
        + moving_line(true, subsystem@, tool@));
}

} // verus!
