//! Reading the extra buttons of OneXPlayer handhelds.

use vstd::prelude::*;

use super::event::{BinaryInput, ButtonEvent, Event};

verus! {

pub const VID: u16 = 0x1a86;

pub const PID: u16 = 0xfe00;

pub const IID: i32 = 0x02;

/// Size of every report and command.
pub const PACKET_SIZE: usize = 64;

/// How long a poll waits for a report, in milliseconds.
pub const HID_TIMEOUT: i32 = 10;

/// How long a read waits while replies are drained, in milliseconds.
pub const DRAIN_TIMEOUT: i32 = 50;

/// How many replies are drained at most after a command.
pub const DRAIN_READS: u8 = 10;

/// The byte that frames reports and commands.
pub const FRAME: u8 = 0x3f;

/// Command id of button reports.
pub const CMD_BUTTON: u8 = 0xb2;

/// Command id of button mappings.
pub const CMD_MAPPING: u8 = 0xb4;

pub const BTN_GUIDE: u8 = 0x21;

pub const BTN_M1: u8 = 0x22;

pub const BTN_M2: u8 = 0x23;

pub const BTN_KEYBOARD: u8 = 0x24;

/// The firmware's code of the F13 key.
pub const KEY_F13: u8 = 0x66;

/// The firmware's code of the F14 key.
pub const KEY_F14: u8 = 0x67;

/// First page of the button mapping: A, B, X, Y, LB, RB, LT, RT and START keep their functions.
pub const INIT_DATA_1: [u8; 59] = [
    0x02, 0x38, 0x20, 0x01, 0x01,
    0x01, 0x01, 0x01, 0x00, 0x00, 0x00,
    0x02, 0x01, 0x02, 0x00, 0x00, 0x00,
    0x03, 0x01, 0x03, 0x00, 0x00, 0x00,
    0x04, 0x01, 0x04, 0x00, 0x00, 0x00,
    0x05, 0x01, 0x05, 0x00, 0x00, 0x00,
    0x06, 0x01, 0x06, 0x00, 0x00, 0x00,
    0x07, 0x01, 0x07, 0x00, 0x00, 0x00,
    0x08, 0x01, 0x08, 0x00, 0x00, 0x00,
    0x09, 0x01, 0x09, 0x00, 0x00, 0x00,
];

/// Second page of the button mapping: BACK, L3, R3 and the D-pad keep their functions, M1 and M2
/// become the keys F14 and F13, so that they no longer mirror LT and RT.
pub const INIT_DATA_2: [u8; 59] = [
    0x02, 0x38, 0x20, 0x02, 0x01,
    0x0a, 0x01, 0x0a, 0x00, 0x00, 0x00,
    0x0b, 0x01, 0x0b, 0x00, 0x00, 0x00,
    0x0c, 0x01, 0x0c, 0x00, 0x00, 0x00,
    0x0d, 0x01, 0x0d, 0x00, 0x00, 0x00,
    0x0e, 0x01, 0x0e, 0x00, 0x00, 0x00,
    0x0f, 0x01, 0x0f, 0x00, 0x00, 0x00,
    0x10, 0x01, 0x10, 0x00, 0x00, 0x00,
    BTN_M1, 0x02, 0x01, KEY_F14, 0x00, 0x00,
    BTN_M2, 0x02, 0x01, KEY_F13, 0x00, 0x00,
];

pub const ENABLE_DATA: [u8; 3] = [0x03, 0x01, 0x02];

pub const DISABLE_DATA: [u8; 3] = [0x00, 0x01, 0x02];

/// A command: `[cid, 0x3F, 0x01, ...data, 0x3F, cid]`, padded with zeros after the data. Data that
/// does not fit is cut off.
pub open spec fn framed(cid: u8, data: Seq<u8>) -> Seq<u8> {
    Seq::new(
        PACKET_SIZE as nat,
        |i: int|
            if i == 0 || i == PACKET_SIZE - 1 {
                cid
            } else if i == 1 || i == PACKET_SIZE - 2 {
                FRAME
            } else if i == 2 {
                0x01
            } else if i - 3 < data.len() {
                data[i - 3]
            } else {
                0x00
            },
    )
}

/// Generate a command with 0x3F framing: [cid, 0x3F, 0x01, ...data, 0x3F, cid]
pub fn gen_cmd(cid: u8, data: &[u8]) -> (packet: [u8; PACKET_SIZE])
    ensures
        packet@ == framed(cid, data@),
{
    let mut buf: [u8; PACKET_SIZE] = [0u8; 64];
    buf[0] = cid;
    buf[1] = FRAME;
    buf[2] = 0x01;
    let mut i: usize = 0;
    while i < data.len() && i + 3 < PACKET_SIZE - 2
        invariant
            i <= data.len(),
            i + 3 <= PACKET_SIZE - 2,
            buf@.len() == PACKET_SIZE,
            buf@[0] == cid,
            buf@[1] == FRAME,
            buf@[2] == 0x01,
            forall|j: int| 3 <= j < i + 3 ==> buf@[j] == data@[j - 3],
            forall|j: int| i + 3 <= j < PACKET_SIZE ==> buf@[j] == 0,
        decreases data.len() - i,
    {
        buf[i + 3] = data[i];
        i = i + 1;
    }
    buf[PACKET_SIZE - 2] = FRAME;
    buf[PACKET_SIZE - 1] = cid;
    assert(buf@ =~= framed(cid, data@));
    buf
}

/// Where the initialization stands: the thing to do next.
#[derive(Clone, Copy, Debug, PartialEq, Eq, Structural)]
pub enum InitStep {
    /// Send the first page of the button mapping.
    MapFirstPage,
    /// Send the second page of the button mapping, upon which the device takes up both.
    MapSecondPage,
    /// Enter report mode.
    Enable,
    /// Let the device settle.
    SettleEnabled,
    /// Drop replies to the enable command. That many were read.
    DrainEnabled { reads: u8 },
    /// Complete the report mode cycle.
    Disable,
    /// Let the device settle.
    SettleDisabled,
    /// Drop replies to the disable command. That many were read.
    DrainDisabled { reads: u8 },
    /// The device reports its buttons.
    Done,
}

/// A thing to do with the device.
#[derive(Clone, Copy)]
pub enum InitAction {
    /// Write a packet.
    Write([u8; PACKET_SIZE]),
    /// Wait for that many milliseconds.
    Sleep(u64),
    /// Read a packet and drop it, waiting for that many milliseconds at most.
    Read(i32),
    /// Nothing is left to do.
    Finished,
}

/// The contents of an [`InitAction`].
#[verifier::ext_equal]
pub enum Action {
    Write(Seq<u8>),
    Sleep(u64),
    Read(i32),
    Finished,
}

impl View for InitAction {
    type V = Action;

    open spec fn view(&self) -> Action {
        match self {
            InitAction::Write(packet) => Action::Write(packet@),
            InitAction::Sleep(millis) => Action::Sleep(*millis),
            InitAction::Read(timeout) => Action::Read(*timeout),
            InitAction::Finished => Action::Finished,
        }
    }
}

/// The command that sends the first page of the button mapping.
pub open spec fn first_page() -> Seq<u8> {
    framed(CMD_MAPPING, INIT_DATA_1@)
}

/// The command that sends the second page of the button mapping.
pub open spec fn second_page() -> Seq<u8> {
    framed(CMD_MAPPING, INIT_DATA_2@)
}

/// The command that enters report mode.
pub open spec fn enable_command() -> Seq<u8> {
    framed(CMD_BUTTON, ENABLE_DATA@)
}

/// The command that completes the report mode cycle.
pub open spec fn disable_command() -> Seq<u8> {
    framed(CMD_BUTTON, DISABLE_DATA@)
}

impl InitStep {
    /// What is done at this step.
    pub open spec fn to_do(self) -> Action {
        match self {
            InitStep::MapFirstPage => Action::Write(first_page()),
            InitStep::MapSecondPage => Action::Write(second_page()),
            InitStep::Enable => Action::Write(enable_command()),
            InitStep::SettleEnabled => Action::Sleep(200),
            InitStep::DrainEnabled { .. } => Action::Read(DRAIN_TIMEOUT),
            InitStep::Disable => Action::Write(disable_command()),
            InitStep::SettleDisabled => Action::Sleep(100),
            InitStep::DrainDisabled { .. } => Action::Read(DRAIN_TIMEOUT),
            InitStep::Done => Action::Finished,
        }
    }

    /// The step after this one. A drain ends at the first read that brings nothing, and after
    /// [`DRAIN_READS`] reads.
    pub open spec fn after(self, bytes_read: usize) -> InitStep {
        match self {
            InitStep::MapFirstPage => InitStep::MapSecondPage,
            InitStep::MapSecondPage => InitStep::Enable,
            InitStep::Enable => InitStep::SettleEnabled,
            InitStep::SettleEnabled => InitStep::DrainEnabled { reads: 0 },
            InitStep::DrainEnabled { reads } => if bytes_read == 0 || reads + 1 >= DRAIN_READS {
                InitStep::Disable
            } else {
                InitStep::DrainEnabled { reads: (reads + 1) as u8 }
            },
            InitStep::Disable => InitStep::SettleDisabled,
            InitStep::SettleDisabled => InitStep::DrainDisabled { reads: 0 },
            InitStep::DrainDisabled { reads } => if bytes_read == 0 || reads + 1 >= DRAIN_READS {
                InitStep::Done
            } else {
                InitStep::DrainDisabled { reads: (reads + 1) as u8 }
            },
            InitStep::Done => InitStep::Done,
        }
    }

    /// A bound on the number of steps that are left.
    pub open spec fn remaining(self) -> nat {
        let drains = |reads: u8|
            if reads < DRAIN_READS {
                (DRAIN_READS - reads) as nat
            } else {
                0nat
            };
        match self {
            InitStep::MapFirstPage => 28,
            InitStep::MapSecondPage => 27,
            InitStep::Enable => 26,
            InitStep::SettleEnabled => 25,
            InitStep::DrainEnabled { reads } => 14 + drains(reads),
            InitStep::Disable => 13,
            InitStep::SettleDisabled => 12,
            InitStep::DrainDisabled { reads } => 1 + drains(reads),
            InitStep::Done => 0,
        }
    }

    /// What has to be done at this step.
    pub fn action(self) -> (action: InitAction)
        ensures
            action@ == self.to_do(),
    {
        match self {
            InitStep::MapFirstPage => InitAction::Write(
                gen_cmd(CMD_MAPPING, INIT_DATA_1.as_slice()),
            ),
            InitStep::MapSecondPage => InitAction::Write(
                gen_cmd(CMD_MAPPING, INIT_DATA_2.as_slice()),
            ),
            InitStep::Enable => InitAction::Write(gen_cmd(CMD_BUTTON, ENABLE_DATA.as_slice())),
            InitStep::SettleEnabled => InitAction::Sleep(200),
            InitStep::DrainEnabled { .. } => InitAction::Read(DRAIN_TIMEOUT),
            InitStep::Disable => InitAction::Write(gen_cmd(CMD_BUTTON, DISABLE_DATA.as_slice())),
            InitStep::SettleDisabled => InitAction::Sleep(100),
            InitStep::DrainDisabled { .. } => InitAction::Read(DRAIN_TIMEOUT),
            InitStep::Done => InitAction::Finished,
        }
    }

    /// The step after this one, once its action succeeded. `bytes_read` is what a read brought.
    pub fn next(self, bytes_read: usize) -> (step: InitStep)
        ensures
            step == self.after(bytes_read),
            self != InitStep::Done ==> step.remaining() < self.remaining(),
    {
        match self {
            InitStep::MapFirstPage => InitStep::MapSecondPage,
            InitStep::MapSecondPage => InitStep::Enable,
            InitStep::Enable => InitStep::SettleEnabled,
            InitStep::SettleEnabled => InitStep::DrainEnabled { reads: 0 },
            InitStep::DrainEnabled { reads } => if bytes_read == 0 || reads >= DRAIN_READS - 1 {
                InitStep::Disable
            } else {
                InitStep::DrainEnabled { reads: reads + 1 }
            },
            InitStep::Disable => InitStep::SettleDisabled,
            InitStep::SettleDisabled => InitStep::DrainDisabled { reads: 0 },
            InitStep::DrainDisabled { reads } => if bytes_read == 0 || reads >= DRAIN_READS - 1 {
                InitStep::Done
            } else {
                InitStep::DrainDisabled { reads: reads + 1 }
            },
            InitStep::Done => InitStep::Done,
        }
    }
}

/// Everything that is done from `step` on, where the successive reads bring `reads` bytes, and
/// those after them nothing.
pub open spec fn init_actions(step: InitStep, reads: Seq<usize>) -> Seq<Action>
    decreases step.remaining(),
{
    match step.to_do() {
        Action::Finished => Seq::empty(),
        Action::Read(_) => {
            let bytes_read = if reads.len() > 0 {
                reads[0]
            } else {
                0
            };
            let rest = if reads.len() > 0 {
                reads.skip(1)
            } else {
                reads
            };
            seq![step.to_do()] + init_actions(step.after(bytes_read), rest)
        },
        _ => seq![step.to_do()] + init_actions(step.after(0), reads),
    }
}

/// The packets that are written.
pub open spec fn packets(actions: Seq<Action>) -> Seq<Seq<u8>>
    decreases actions.len(),
{
    if actions.len() == 0 {
        Seq::empty()
    } else {
        match actions[0] {
            Action::Write(packet) => seq![packet] + packets(actions.skip(1)),
            _ => packets(actions.skip(1)),
        }
    }
}

/// How often the device is read: before the first packet, and after each packet until the next.
pub open spec fn read_counts(actions: Seq<Action>) -> Seq<nat>
    decreases actions.len(),
{
    if actions.len() == 0 {
        seq![0]
    } else {
        let rest = read_counts(actions.skip(1));
        match actions[0] {
            Action::Write(_) => seq![0nat] + rest,
            Action::Read(_) => rest.update(0, rest[0] + 1),
            _ => rest,
        }
    }
}

/// How many reads a drain still makes at most.
spec fn reads_left(reads: u8) -> int {
    if reads < DRAIN_READS {
        DRAIN_READS - reads
    } else {
        1
    }
}

/// How often the device is read at most from `step` on, as in [`read_counts`].
spec fn most_reads(step: InitStep) -> Seq<int> {
    let drain = DRAIN_READS as int;
    match step {
        InitStep::MapFirstPage => seq![0, 0, 0, drain, drain],
        InitStep::MapSecondPage => seq![0, 0, drain, drain],
        InitStep::Enable => seq![0, drain, drain],
        InitStep::SettleEnabled => seq![drain, drain],
        InitStep::DrainEnabled { reads } => seq![reads_left(reads), drain],
        InitStep::Disable => seq![0, drain],
        InitStep::SettleDisabled => seq![drain],
        InitStep::DrainDisabled { reads } => seq![reads_left(reads)],
        InitStep::Done => seq![0],
    }
}

/// What the first action adds to the packets and to the reads.
proof fn lemma_first_action(step: InitStep, reads: Seq<usize>, rest: Seq<Action>)
    requires
        init_actions(step, reads) == seq![step.to_do()] + rest,
    ensures
        packets(init_actions(step, reads)) == (match step.to_do() {
            Action::Write(packet) => seq![packet] + packets(rest),
            _ => packets(rest),
        }),
        read_counts(init_actions(step, reads)) == (match step.to_do() {
            Action::Write(_) => seq![0nat] + read_counts(rest),
            Action::Read(_) => read_counts(rest).update(0, read_counts(rest)[0] + 1),
            _ => read_counts(rest),
        }),
{
    assert(init_actions(step, reads).skip(1) =~= rest);
}

/// What the initialization writes and how often it reads, from each step on.
proof fn lemma_init_actions(step: InitStep, reads: Seq<usize>)
    ensures
        packets(init_actions(step, reads)) == (match step {
            InitStep::MapFirstPage => seq![
                first_page(),
                second_page(),
                enable_command(),
                disable_command(),
            ],
            InitStep::MapSecondPage => seq![second_page(), enable_command(), disable_command()],
            InitStep::Enable => seq![enable_command(), disable_command()],
            InitStep::SettleEnabled | InitStep::DrainEnabled { .. } | InitStep::Disable => seq![
                disable_command(),
            ],
            _ => Seq::empty(),
        }),
        read_counts(init_actions(step, reads)).len() == most_reads(step).len(),
        forall|i: int|
            0 <= i < most_reads(step).len() ==> #[trigger] read_counts(
                init_actions(step, reads),
            )[i] <= most_reads(step)[i],
    decreases step.remaining(),
{
    if step != InitStep::Done {
        let reading = step.to_do() is Read;
        let bytes_read = if reading && reads.len() > 0 {
            reads[0]
        } else {
            0
        };
        let rest = if reading && reads.len() > 0 {
            reads.skip(1)
        } else {
            reads
        };
        let after = step.after(bytes_read);
        lemma_init_actions(after, rest);
        lemma_first_action(step, reads, init_actions(after, rest));
        assert(packets(init_actions(step, reads)) =~= (match step {
            InitStep::MapFirstPage => seq![
                first_page(),
                second_page(),
                enable_command(),
                disable_command(),
            ],
            InitStep::MapSecondPage => seq![second_page(), enable_command(), disable_command()],
            InitStep::Enable => seq![enable_command(), disable_command()],
            InitStep::SettleEnabled | InitStep::DrainEnabled { .. } | InitStep::Disable => seq![
                disable_command(),
            ],
            _ => Seq::empty(),
        }));
        let counts = read_counts(init_actions(step, reads));
        let held = read_counts(init_actions(after, rest));
        assert forall|i: int| 0 <= i < most_reads(step).len() implies #[trigger] counts[i]
            <= most_reads(step)[i] by {
            if step.to_do() is Write && i > 0 {
                assert(counts[i] == held[i - 1]);
            }
        }
    }
}

/// Whatever the device replies, the initialization writes four packets, in this order: the first
/// page of the mapping, the second page, the enable command and the disable command. It reads
/// nothing before the enable command, and at most [`DRAIN_READS`] replies after each of the last
/// two.
pub proof fn law_initialization_sequence(reads: Seq<usize>)
    ensures
        packets(init_actions(InitStep::MapFirstPage, reads)) == seq![
            first_page(),
            second_page(),
            enable_command(),
            disable_command(),
        ],
        ({
            let counts = read_counts(init_actions(InitStep::MapFirstPage, reads));
            &&& counts.len() == 5
            &&& counts[0] == 0 && counts[1] == 0 && counts[2] == 0
            &&& counts[3] <= DRAIN_READS
            &&& counts[4] <= DRAIN_READS
        }),
{
    lemma_init_actions(InitStep::MapFirstPage, reads);
}

/// A button mapping packet: its header, then a module of six bytes for each of nine buttons.
pub open spec fn is_mapping_packet(
    packet: Seq<u8>,
    page: u8,
    module: spec_fn(int) -> Seq<u8>,
) -> bool {
    &&& packet.len() == PACKET_SIZE
    &&& packet.take(8) == seq![CMD_MAPPING, FRAME, 0x01, 0x02, 0x38, 0x20, page, 0x01]
    &&& forall|k: int|
        0 <= k < 9 ==> #[trigger] module(k) == packet.subrange(8 + 6 * k, 8 + 6 * k + 6)
    &&& packet.skip(62) == seq![FRAME, CMD_MAPPING]
}

/// The module that lets a button keep its own function.
pub open spec fn own_function(button: int) -> Seq<u8> {
    seq![button as u8, 0x01, button as u8, 0x00, 0x00, 0x00]
}

/// The module that makes a button press a key.
pub open spec fn presses_key(button: u8, key: u8) -> Seq<u8> {
    seq![button, 0x02, 0x01, key, 0x00, 0x00]
}

/// The first page leaves the first nine buttons as they are.
pub proof fn law_first_page_layout()
    ensures
        is_mapping_packet(first_page(), 1, |k: int| own_function(k + 1)),
{
    let packet = first_page();
    assert(packet.take(8) =~= seq![CMD_MAPPING, FRAME, 0x01, 0x02, 0x38, 0x20, 0x01, 0x01]);
    assert(packet.skip(62) =~= seq![FRAME, CMD_MAPPING]);
    let module = |k: int| own_function(k + 1);
    assert forall|k: int| 0 <= k < 9 implies #[trigger] module(k) == packet.subrange(
        8 + 6 * k,
        8 + 6 * k + 6,
    ) by {
        assert(k == 0 || k == 1 || k == 2 || k == 3 || k == 4 || k == 5 || k == 6 || k == 7 || k
            == 8);
        assert(module(k) =~= packet.subrange(8 + 6 * k, 8 + 6 * k + 6));
    }
}

/// The second page leaves seven buttons as they are, and makes M1 press F14 and M2 press F13.
pub proof fn law_second_page_layout()
    ensures
        is_mapping_packet(
            second_page(),
            2,
            |k: int|
                if k == 7 {
                    presses_key(BTN_M1, KEY_F14)
                } else if k == 8 {
                    presses_key(BTN_M2, KEY_F13)
                } else {
                    own_function(k + 10)
                },
        ),
{
    let packet = second_page();
    assert(packet.take(8) =~= seq![CMD_MAPPING, FRAME, 0x01, 0x02, 0x38, 0x20, 0x02, 0x01]);
    assert(packet.skip(62) =~= seq![FRAME, CMD_MAPPING]);
    let module = |k: int|
        if k == 7 {
            presses_key(BTN_M1, KEY_F14)
        } else if k == 8 {
            presses_key(BTN_M2, KEY_F13)
        } else {
            own_function(k + 10)
        };
    assert forall|k: int| 0 <= k < 9 implies #[trigger] module(k) == packet.subrange(
        8 + 6 * k,
        8 + 6 * k + 6,
    ) by {
        assert(k == 0 || k == 1 || k == 2 || k == 3 || k == 4 || k == 5 || k == 6 || k == 7 || k
            == 8);
        assert(module(k) =~= packet.subrange(8 + 6 * k, 8 + 6 * k + 6));
    }
}

/// Every command that fits begins and ends with its id and frame bytes, and carries its data whole.
pub proof fn law_command_carries_its_data(cid: u8, data: Seq<u8>)
    requires
        data.len() <= PACKET_SIZE - 5,
    ensures
        framed(cid, data).take(3) == seq![cid, FRAME, 0x01],
        framed(cid, data).subrange(3, 3 + data.len() as int) == data,
        framed(cid, data).skip(PACKET_SIZE - 2) == seq![FRAME, cid],
{
    assert(framed(cid, data).take(3) =~= seq![cid, FRAME, 0x01]);
    assert(framed(cid, data).subrange(3, 3 + data.len() as int) =~= data);
    assert(framed(cid, data).skip(PACKET_SIZE - 2) =~= seq![FRAME, cid]);
}

/// Why a device is refused.
#[derive(Debug)]
pub enum DriverError {
    /// The device at `path` has other ids.
    NotOxpHid { path: String },
}

impl DriverError {
    /// What the error says.
    pub open spec fn text(self) -> Seq<char> {
        match self {
            DriverError::NotOxpHid { path } => "Device '"@ + path@
                + "' is not an OXP HID controller"@,
        }
    }

    /// What the error says.
    pub fn message(&self) -> (message: String)
        ensures
            message@ == self.text(),
    {
        match self {
            DriverError::NotOxpHid { path } => {
                let mut message = "Device '".to_owned();
                message.append(path.as_str());
                message.append("' is not an OXP HID controller");
                message
            },
        }
    }
}

/// What the driver remembers of a device.
pub struct Driver {
    /// The last known state of each button, by its code.
    pub btn_state: [bool; 37],
    /// Whether the device was told to report its buttons.
    pub initialized: bool,
}

/// The button and its state that a report gives, if it is a whole button report of a known button.
pub open spec fn reported(report: Seq<u8>, bytes_read: usize) -> Option<(u8, bool)> {
    if bytes_read >= PACKET_SIZE && report[0] == CMD_BUTTON && report[1] == FRAME
        && report[PACKET_SIZE - 2] == FRAME && BTN_GUIDE <= report[6] <= BTN_KEYBOARD {
        Some((report[6], report[12] == 1))
    } else {
        None
    }
}

/// The event of a button.
pub open spec fn button_event(button: u8, pressed: bool) -> ButtonEvent {
    if button == BTN_M1 {
        ButtonEvent::M1(BinaryInput { pressed })
    } else if button == BTN_M2 {
        ButtonEvent::M2(BinaryInput { pressed })
    } else if button == BTN_KEYBOARD {
        ButtonEvent::Keyboard(BinaryInput { pressed })
    } else {
        ButtonEvent::Guide(BinaryInput { pressed })
    }
}

/// The reports that change the state of a button, from a first state on.
pub open spec fn changes(state: Seq<bool>, reports: Seq<(u8, bool)>) -> Seq<(u8, bool)>
    decreases reports.len(),
{
    if reports.len() == 0 {
        Seq::empty()
    } else {
        let (button, pressed) = reports[0];
        if state[button as int] == pressed {
            changes(state, reports.skip(1))
        } else {
            seq![reports[0]] + changes(state.update(button as int, pressed), reports.skip(1))
        }
    }
}

/// The state of the buttons after some reports.
pub open spec fn state_after(state: Seq<bool>, reports: Seq<(u8, bool)>) -> Seq<bool>
    decreases reports.len(),
{
    if reports.len() == 0 {
        state
    } else {
        state_after(state.update(reports[0].0 as int, reports[0].1), reports.skip(1))
    }
}

/// The events of some button changes.
pub open spec fn button_events(changed: Seq<(u8, bool)>) -> Seq<Event> {
    changed.map_values(|change: (u8, bool)| Event::Button(button_event(change.0, change.1)))
}

/// The report as a list: of one button state, or empty.
pub open spec fn report_list(report: Seq<u8>, bytes_read: usize) -> Seq<(u8, bool)> {
    match reported(report, bytes_read) {
        Some(button) => seq![button],
        None => Seq::empty(),
    }
}

impl Driver {
    /// A driver for the device at `path` with the given ids. All buttons are taken to be released.
    pub fn new(path: String, vendor_id: u16, product_id: u16) -> (result: Result<
        Self,
        DriverError,
    >)
        ensures
            result is Ok <==> vendor_id == VID && product_id == PID,
            match result {
                Ok(driver) => {
                    &&& !driver.initialized
                    &&& forall|i: int| 0 <= i < 37 ==> !driver.btn_state@[i]
                },
                Err(DriverError::NotOxpHid { path: named }) => named@ == path@,
            },
    {
        if vendor_id != VID || product_id != PID {
            return Err(DriverError::NotOxpHid { path });
        }
        Ok(Driver { btn_state: [false; 37], initialized: false })
    }

    /// Takes note that the action of `step` succeeded. `bytes_read` is what a read brought.
    pub fn initialize(&mut self, step: InitStep, bytes_read: usize) -> (next: InitStep)
        ensures
            next == step.after(bytes_read),
            final(self).initialized == (old(self).initialized || next == InitStep::Done),
            final(self).btn_state == old(self).btn_state,
    {
        let next = step.next(bytes_read);
        if next == InitStep::Done {
            self.initialized = true;
        }
        next
    }

    /// Where the initialization starts, if it is still to be done.
    pub fn start(&self) -> (step: InitStep)
        ensures
            step == (if self.initialized {
                InitStep::Done
            } else {
                InitStep::MapFirstPage
            }),
    {
        if self.initialized {
            InitStep::Done
        } else {
            InitStep::MapFirstPage
        }
    }

    /// Reads an input report. A button gives an event where its state differs from the last known.
    pub fn poll(&mut self, report: &[u8; PACKET_SIZE], bytes_read: usize) -> (events: Vec<Event>)
        ensures
            events@ == button_events(
                changes(old(self).btn_state@, report_list(report@, bytes_read)),
            ),
            final(self).btn_state@ == state_after(
                old(self).btn_state@,
                report_list(report@, bytes_read),
            ),
            final(self).initialized == old(self).initialized,
    {
        let ghost state = self.btn_state@;
        let ghost list = report_list(report@, bytes_read);
        let mut events: Vec<Event> = Vec::new();
        if bytes_read < PACKET_SIZE {
            assert(events@ =~= button_events(changes(state, list)));
            return events;
        }
        let valid = report[1] == FRAME && report[PACKET_SIZE - 2] == FRAME;
        if !valid || report[0] != CMD_BUTTON {
            assert(events@ =~= button_events(changes(state, list)));
            return events;
        }
        let button: u8 = report[6];
        let pressed = report[12] == 1;
        let event = if button == BTN_M1 {
            ButtonEvent::M1(BinaryInput { pressed })
        } else if button == BTN_M2 {
            ButtonEvent::M2(BinaryInput { pressed })
        } else if button == BTN_KEYBOARD {
            ButtonEvent::Keyboard(BinaryInput { pressed })
        } else if button == BTN_GUIDE {
            ButtonEvent::Guide(BinaryInput { pressed })
        } else {
            assert(events@ =~= button_events(changes(state, list)));
            return events;
        };
        assert(list == seq![(button, pressed)]);
        assert(list.skip(1) =~= Seq::empty());
        reveal_with_fuel(changes, 2);
        reveal_with_fuel(state_after, 2);
        if self.btn_state[button as usize] == pressed {
            assert(self.btn_state@ =~= state.update(button as int, pressed));
            assert(events@ =~= button_events(changes(state, list)));
            return events;
        }
        self.btn_state[button as usize] = pressed;
        events.push(Event::Button(event));
        assert(changes(state, list) =~= seq![(button, pressed)]);
        assert(events@ =~= button_events(changes(state, list)));
        events
    }
}

/// All reports are of buttons that the driver knows.
pub open spec fn known_buttons(reports: Seq<(u8, bool)>) -> bool {
    forall|i: int|
        0 <= i < reports.len() ==> BTN_GUIDE <= (#[trigger] reports[i]).0 <= BTN_KEYBOARD
}

/// What follows the first report is of known buttons too.
proof fn lemma_rest_is_known(reports: Seq<(u8, bool)>)
    requires
        reports.len() > 0,
        known_buttons(reports),
    ensures
        BTN_GUIDE <= reports[0].0 <= BTN_KEYBOARD,
        known_buttons(reports.skip(1)),
{
    let rest = reports.skip(1);
    assert forall|i: int| 0 <= i < rest.len() implies BTN_GUIDE <= (#[trigger] rest[i]).0
        <= BTN_KEYBOARD by {
        assert(rest[i] == reports[i + 1]);
    }
}

/// The first event of a button changes the state that it was in: of a released button it is a
/// press, and of a pressed button a release.
pub proof fn law_first_event_changes_the_state(state: Seq<bool>, reports: Seq<(u8, bool)>, at: int)
    requires
        state.len() == 37,
        known_buttons(reports),
        0 <= at < changes(state, reports).len(),
        forall|k: int|
            0 <= k < at ==> (#[trigger] changes(state, reports)[k]).0 != changes(
                state,
                reports,
            )[at].0,
    ensures
        changes(state, reports)[at].1 != state[changes(state, reports)[at].0 as int],
        BTN_GUIDE <= changes(state, reports)[at].0 <= BTN_KEYBOARD,
    decreases reports.len(),
{
    let all = changes(state, reports);
    let (button, pressed) = reports[0];
    let rest = reports.skip(1);
    lemma_rest_is_known(reports);
    if state[button as int] == pressed {
        law_first_event_changes_the_state(state, rest, at);
    } else if at > 0 {
        let next = state.update(button as int, pressed);
        let tail = changes(next, rest);
        assert(all =~= seq![reports[0]] + tail);
        assert(all[at] == tail[at - 1]);
        assert(all[0] == reports[0]);
        assert forall|k: int| 0 <= k < at - 1 implies (#[trigger] tail[k]).0 != tail[at - 1].0 by {
            assert(all[k + 1] == tail[k]);
        }
        law_first_event_changes_the_state(next, rest, at - 1);
    } else {
        assert(all[0] == reports[0]);
    }
}

/// Reports are debounced: over any reports, the events of one button alternate between pressed and
/// released.
pub proof fn law_events_of_a_button_alternate(
    state: Seq<bool>,
    reports: Seq<(u8, bool)>,
    i: int,
    j: int,
)
    requires
        state.len() == 37,
        known_buttons(reports),
        0 <= i < j < changes(state, reports).len(),
        changes(state, reports)[i].0 == changes(state, reports)[j].0,
        forall|k: int|
            i < k < j ==> (#[trigger] changes(state, reports)[k]).0 != changes(
                state,
                reports,
            )[i].0,
    ensures
        changes(state, reports)[i].1 != changes(state, reports)[j].1,
    decreases reports.len(),
{
    let all = changes(state, reports);
    let (button, pressed) = reports[0];
    let rest = reports.skip(1);
    lemma_rest_is_known(reports);
    if state[button as int] == pressed {
        law_events_of_a_button_alternate(state, rest, i, j);
    } else {
        let next = state.update(button as int, pressed);
        let tail = changes(next, rest);
        assert(all =~= seq![reports[0]] + tail);
        assert forall|k: int| 0 < k < all.len() implies #[trigger] all[k] == tail[k - 1] by {}
        assert(all[0] == reports[0]);
        assert(all[j] == tail[j - 1]);
        if i == 0 {
            assert forall|k: int| 0 <= k < j - 1 implies (#[trigger] tail[k]).0 != tail[j
                - 1].0 by {
                assert(all[k + 1] == tail[k]);
            }
            law_first_event_changes_the_state(next, rest, j - 1);
        } else {
            assert(all[i] == tail[i - 1]);
            assert forall|k: int| i - 1 < k < j - 1 implies (#[trigger] tail[k]).0 != tail[i
                - 1].0 by {
                assert(all[k + 1] == tail[k]);
            }
            law_events_of_a_button_alternate(next, rest, i - 1, j - 1);
        }
    }
}

/// Debouncing goes on from poll to poll: what all reports give together is what the first of them
/// give, and then what the others give from the state that the first led to.
pub proof fn law_debouncing_goes_on(
    state: Seq<bool>,
    first: Seq<(u8, bool)>,
    later: Seq<(u8, bool)>,
)
    requires
        state.len() == 37,
        known_buttons(first),
    ensures
        changes(state, first + later) == changes(state, first) + changes(
            state_after(state, first),
            later,
        ),
        state_after(state, first + later) == state_after(state_after(state, first), later),
    decreases first.len(),
{
    if first.len() > 0 {
        let (button, pressed) = first[0];
        let rest = first.skip(1);
        let next = state.update(button as int, pressed);
        lemma_rest_is_known(first);
        assert((first + later)[0] == first[0]);
        assert((first + later).skip(1) =~= rest + later);
        if state[button as int] == pressed {
            assert(next =~= state);
        }
        law_debouncing_goes_on(next, rest, later);
        assert(changes(state, first + later) =~= changes(state, first) + changes(
            state_after(state, first),
            later,
        ));
    } else {
        assert(first + later =~= later);
        assert(changes(state, first) + changes(state, later) =~= changes(state, later));
    }
}

/// A report that repeats the last one of its button gives no event.
pub proof fn law_repeated_report_is_silent(state: Seq<bool>, button: u8, pressed: bool)
    requires
        state.len() == 37,
        BTN_GUIDE <= button <= BTN_KEYBOARD,
    ensures
        changes(state_after(state, seq![(button, pressed)]), seq![(button, pressed)]).len() == 0,
{
    reveal_with_fuel(changes, 2);
    reveal_with_fuel(state_after, 2);
    assert(seq![(button, pressed)].skip(1) =~= Seq::empty());
}

/// Nothing is lost by debouncing: the events alone lead to the same state of the buttons as all the
/// reports.
pub proof fn law_events_lead_to_the_state(state: Seq<bool>, reports: Seq<(u8, bool)>)
    requires
        state.len() == 37,
        known_buttons(reports),
    ensures
        state_after(state, changes(state, reports)) == state_after(state, reports),
    decreases reports.len(),
{
    if reports.len() > 0 {
        let (button, pressed) = reports[0];
        let rest = reports.skip(1);
        let next = state.update(button as int, pressed);
        lemma_rest_is_known(reports);
        if state[button as int] == pressed {
            assert(next =~= state);
            law_events_lead_to_the_state(state, rest);
        } else {
            law_events_lead_to_the_state(next, rest);
            let events = changes(state, reports);
            assert(events[0] == reports[0]);
            assert(events.skip(1) =~= changes(next, rest));
        }
    }
}

} // verus!
