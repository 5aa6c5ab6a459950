//! Reading a sensor through a triggered buffer.

use vstd::prelude::*;

use crate::text;

use super::trigger::Candidate;

verus! {

/// How many samples the buffer holds.
pub const DEFAULT_BUFFER_SAMPLES: usize = 1;

/// The size of a sample where it cannot be detected.
pub const DEFAULT_STORAGE_BITS: u32 = 32;

pub const DEVICES_DIR: &'static str = "/sys/bus/iio/devices/";

/// Where the state of a device stands in sysfs.
pub open spec fn device_dir(device_id: Seq<char>) -> Seq<char> {
    DEVICES_DIR@ + device_id
}

/// Why a buffer cannot be used.
#[derive(Clone, Copy, Debug, PartialEq, Eq, Structural)]
pub enum BufferError {
    /// There is no trigger.
    NoTrigger,
    /// No channel can be part of a scan.
    NoScanElements,
}

impl BufferError {
    /// What the error says.
    pub open spec fn text(self) -> Seq<char> {
        match self {
            BufferError::NoTrigger => "No suitable IIO trigger found"@,
            BufferError::NoScanElements => "No scan elements available for buffer mode"@,
        }
    }

    /// What the error says.
    pub fn message(&self) -> (message: String)
        ensures
            message@ == self.text(),
    {
        match self {
            BufferError::NoTrigger => "No suitable IIO trigger found".to_owned(),
            BufferError::NoScanElements => "No scan elements available for buffer mode".to_owned(),
        }
    }
}

/// What to do to read a sensor through a buffer.
pub struct BufferPlan {
    /// The place of the trigger that is bound to the sensor.
    pub trigger: usize,
    /// The places of the channels that are enabled after that.
    pub channels: Result<Vec<usize>, BufferError>,
}

/// The places of the channels that can be part of a scan.
pub open spec fn scan_places(scan: Seq<bool>) -> Seq<usize>
    decreases scan.len(),
{
    if scan.len() == 0 {
        Seq::empty()
    } else if scan.last() {
        scan_places(scan.drop_last()).push((scan.len() - 1) as usize)
    } else {
        scan_places(scan.drop_last())
    }
}

/// The places of the channels that can be part of a scan.
fn scan_channels(scan: &Vec<bool>) -> (places: Vec<usize>)
    ensures
        places@ == scan_places(scan@),
{
    let mut places: Vec<usize> = Vec::new();
    let mut at: usize = 0;
    while at < scan.len()
        invariant
            at <= scan.len(),
            places@ == scan_places(scan@.take(at as int)),
        decreases scan.len() - at,
    {
        assert(scan@.take(at + 1).drop_last() =~= scan@.take(at as int));
        if scan[at] {
            places.push(at);
        }
        at = at + 1;
    }
    assert(scan@.take(at as int) =~= scan@);
    places
}

/// Decides how to read the sensor `name` through a buffer: `devices` are those among which a
/// trigger is looked for, and `scan` tells of each channel whether it can be part of a scan.
pub fn try_buffer_mode(devices: &Vec<Option<Candidate>>, name: &str, scan: &Vec<bool>) -> (plan:
    Result<BufferPlan, BufferError>)
    ensures
        match plan {
            Ok(plan) => {
                &&& super::trigger::is_choice(devices@, name@, plan.trigger as int)
                &&& match plan.channels {
                    Ok(channels) => {
                        &&& channels@ == scan_places(scan@)
                        &&& channels@.len() > 0
                    },
                    Err(e) => {
                        &&& e == BufferError::NoScanElements
                        &&& scan_places(scan@).len() == 0
                    },
                }
            },
            Err(e) => {
                &&& e == BufferError::NoTrigger
                &&& super::trigger::nowhere(devices@.len(), |i: int| super::trigger::trigger_at(devices@, i))
            },
        },
{
    let trigger = match super::trigger::find_trigger(devices, name) {
        Some(place) => place,
        None => {
            return Err(BufferError::NoTrigger);
        },
    };
    let channels = scan_channels(scan);
    if channels.len() == 0 {
        return Ok(BufferPlan { trigger, channels: Err(BufferError::NoScanElements) });
    }
    Ok(BufferPlan { trigger, channels: Ok(channels) })
}

/// How a sample is stored.
#[derive(Clone, Copy, Debug, PartialEq, Eq, Structural)]
pub enum SampleWidth {
    Bits16,
    Bits32,
    Bits64,
}

/// The samples of a channel that a buffer holds.
pub enum ChannelSamples {
    Bits16(Vec<i16>),
    Bits32(Vec<i32>),
    Bits64(Vec<i64>),
}

impl View for ChannelSamples {
    type V = Seq<int>;

    open spec fn view(&self) -> Seq<int> {
        match self {
            ChannelSamples::Bits16(samples) => samples@.map_values(|v: i16| v as int),
            ChannelSamples::Bits32(samples) => samples@.map_values(|v: i32| v as int),
            ChannelSamples::Bits64(samples) => samples@.map_values(|v: i64| v as int),
        }
    }
}

/// How samples of that many bits are stored. Other sizes are not supported.
pub fn sample_width(storage_bits: u32) -> (width: Option<SampleWidth>)
    ensures
        width == (if storage_bits == 16 {
            Some(SampleWidth::Bits16)
        } else if storage_bits == 32 {
            Some(SampleWidth::Bits32)
        } else if storage_bits == 64 {
            Some(SampleWidth::Bits64)
        } else {
            None
        }),
{
    match storage_bits {
        16 => Some(SampleWidth::Bits16),
        32 => Some(SampleWidth::Bits32),
        64 => Some(SampleWidth::Bits64),
        _ => None,
    }
}

/// The last of the samples.
pub fn read_buffer_sample(samples: &ChannelSamples) -> (sample: Option<i64>)
    ensures
        match sample {
            Some(value) => samples@.len() > 0 && value == samples@.last(),
            None => samples@.len() == 0,
        },
{
    match samples {
        ChannelSamples::Bits16(values) => if values.len() > 0 {
            Some(values[values.len() - 1] as i64)
        } else {
            None
        },
        ChannelSamples::Bits32(values) => if values.len() > 0 {
            Some(values[values.len() - 1] as i64)
        } else {
            None
        },
        ChannelSamples::Bits64(values) => if values.len() > 0 {
            Some(values[values.len() - 1])
        } else {
            None
        },
    }
}

/// The number of storage bits of a sample type, which stands between the first slash and the first
/// shift sign, as in "le:s16/16>>0".
pub open spec fn storage_bits(kind: Seq<char>) -> Option<nat> {
    match (text::place(kind, "/"@, 0), text::place(kind, ">>"@, 0)) {
        (Some(slash), Some(shift)) => text::unsigned(
            kind.subrange(slash + 1, shift),
            u32::MAX as nat,
        ),
        _ => None,
    }
}

/// The shift sign, where there is one, does not stand before the slash.
pub open spec fn in_order(kind: Seq<char>) -> bool {
    match (text::place(kind, "/"@, 0), text::place(kind, ">>"@, 0)) {
        (Some(slash), Some(shift)) => slash < shift,
        _ => true,
    }
}

/// The number of storage bits of a sample type.
pub fn parse_storage_bits(kind: &str) -> (bits: Option<u32>)
    requires
        in_order(kind@),
    ensures
        match storage_bits(kind@) {
            Some(number) => bits == Some(number as u32),
            None => bits is None,
        },
{
    if let Some(slash) = text::find(kind, "/") {
        if let Some(shift) = text::find(kind, ">>") {
            return text::parse_u32(kind.substring_char(slash + 1, shift));
        }
    }
    None
}

/// The sample types of these channels are looked at, in this order.
pub open spec fn type_names() -> Seq<Seq<char>> {
    seq!["in_accel_x_type"@, "in_anglvel_x_type"@, "in_accel_y_type"@, "in_anglvel_y_type"@]
}

/// Where the scan elements of a device stand.
pub open spec fn scan_dir(device_id: Seq<char>) -> Seq<char> {
    device_dir(device_id) + "/scan_elements"@
}

/// Where the scan elements of a device stand.
pub fn scan_elements_dir(device_id: &str) -> (path: String)
    ensures
        path@ == scan_dir(device_id@),
{
    let mut path = text::joined(DEVICES_DIR, device_id);
    path.append("/scan_elements");
    path
}

/// The file `name` among the scan elements of a device.
pub fn scan_element_path(device_id: &str, name: &str) -> (path: String)
    ensures
        path@ == scan_dir(device_id@) + "/"@ + name@,
{
    let mut path = scan_elements_dir(device_id);
    path.append("/");
    path.append(name);
    path
}

/// The files that hold the sample types.
pub fn type_paths(device_id: &str) -> (paths: Vec<String>)
    ensures
        text::views(paths@) == type_names().map_values(
            |name: Seq<char>| scan_dir(device_id@) + "/"@ + name,
        ),
{
    let mut paths: Vec<String> = Vec::new();
    paths.push(scan_element_path(device_id, "in_accel_x_type"));
    paths.push(scan_element_path(device_id, "in_anglvel_x_type"));
    paths.push(scan_element_path(device_id, "in_accel_y_type"));
    paths.push(scan_element_path(device_id, "in_anglvel_y_type"));
    assert(text::views(paths@) =~= type_names().map_values(
        |name: Seq<char>| scan_dir(device_id@) + "/"@ + name,
    ));
    paths
}

/// The number of storage bits that a sample type gives, where it could be read.
pub open spec fn bits_in(kind: Option<String>) -> Option<nat> {
    match kind {
        Some(kind) => storage_bits(kind@),
        None => None,
    }
}

/// The storage bits that the first of the sample types gives, or [`DEFAULT_STORAGE_BITS`] where
/// none does.
pub open spec fn detected_bits(kinds: Seq<Option<String>>) -> nat
    decreases kinds.len(),
{
    if kinds.len() == 0 {
        DEFAULT_STORAGE_BITS as nat
    } else {
        match bits_in(kinds[0]) {
            Some(bits) => bits,
            None => detected_bits(kinds.skip(1)),
        }
    }
}

/// The sample type is well ordered, if it could be read.
pub open spec fn readable(kind: Option<String>) -> bool {
    kind matches Some(text) ==> in_order(text@)
}

/// The size of a sample: `kinds` are the sample types, as far as they could be read.
pub fn detect_storage_bits(kinds: &Vec<Option<String>>) -> (bits: u32)
    requires
        forall|i: int|
            0 <= i < kinds@.len() && (forall|j: int|
                0 <= j < i ==> bits_in(#[trigger] kinds@[j]) is None) ==> readable(
                #[trigger] kinds@[i],
            ),
    ensures
        bits == detected_bits(kinds@),
{
    let mut at: usize = 0;
    assert(kinds@.skip(0) =~= kinds@);
    while at < kinds.len()
        invariant
            at <= kinds.len(),
            detected_bits(kinds@) == detected_bits(kinds@.skip(at as int)),
            forall|j: int| 0 <= j < at ==> bits_in(#[trigger] kinds@[j]) is None,
            forall|i: int|
                0 <= i < kinds@.len() && (forall|j: int|
                    0 <= j < i ==> bits_in(#[trigger] kinds@[j]) is None) ==> readable(
                    #[trigger] kinds@[i],
                ),
        decreases kinds.len() - at,
    {
        let ghost rest = kinds@.skip(at as int);
        assert(rest[0] == kinds@[at as int]);
        assert(rest.skip(1) =~= kinds@.skip(at + 1));
        if let Some(kind) = &kinds[at] {
            assert(readable(kinds@[at as int]));
            if let Some(bits) = parse_storage_bits(kind.as_str()) {
                return bits;
            }
        }
        at = at + 1;
    }
    DEFAULT_STORAGE_BITS
}

/// Whether the shift sign of a sample type, where there is one, does not stand before the slash.
pub fn well_ordered(kind: &str) -> (ordered: bool)
    ensures
        ordered == in_order(kind@),
{
    if let Some(slash) = text::find(kind, "/") {
        if let Some(shift) = text::find(kind, ">>") {
            return slash < shift;
        }
    }
    true
}

/// Where the removal of what an earlier buffer left behind stands: the thing to do next.
#[derive(Clone, Copy, Debug, PartialEq, Eq, Structural)]
pub enum CleanupStep {
    /// See whether the buffer is enabled.
    CheckBuffer,
    /// Disable the buffer.
    DisableBuffer,
    /// See whether a trigger is bound.
    CheckTrigger,
    /// Unbind the trigger.
    UnbindTrigger,
    /// Disable the scan elements that are enabled.
    ListScanElements,
    /// Nothing is left to do.
    Done,
}

/// A thing to do with the files of a device.
#[derive(Debug)]
pub enum CleanupAction {
    /// Read a file.
    Read(String),
    /// Write a text to a file.
    Write {
        path: String,
        text: String,
    },
    /// List a directory.
    List(String),
    /// Nothing is left to do.
    Finished,
}

/// The contents of a [`CleanupAction`].
#[verifier::ext_equal]
pub enum Cleanup {
    Read(Seq<char>),
    Write { path: Seq<char>, text: Seq<char> },
    List(Seq<char>),
    Finished,
}

impl View for CleanupAction {
    type V = Cleanup;

    open spec fn view(&self) -> Cleanup {
        match self {
            CleanupAction::Read(path) => Cleanup::Read(path@),
            CleanupAction::Write { path, text } => Cleanup::Write { path: path@, text: text@ },
            CleanupAction::List(path) => Cleanup::List(path@),
            CleanupAction::Finished => Cleanup::Finished,
        }
    }
}

/// The file was read and says that something is enabled.
pub open spec fn is_enabled(content: Option<Seq<char>>) -> bool {
    content matches Some(text) && text::trimmed(text) == "1"@
}

/// The file was read and names something.
pub open spec fn is_named(content: Option<Seq<char>>) -> bool {
    content matches Some(text) && text::trimmed(text).len() > 0
}

/// The characters of a text, where there is one.
pub open spec fn optional_view(content: Option<&str>) -> Option<Seq<char>> {
    match content {
        Some(text) => Some(text@),
        None => None,
    }
}

/// Whether the file was read and says that something is enabled.
fn enabled(content: Option<&str>) -> (found: bool)
    ensures
        found == is_enabled(optional_view(content)),
{
    match content {
        Some(content) => text::equal(text::trim(content).as_str(), "1"),
        None => false,
    }
}

/// Whether the file was read and names something.
fn named(content: Option<&str>) -> (found: bool)
    ensures
        found == is_named(optional_view(content)),
{
    match content {
        Some(content) => {
            proof {
                reveal_strlit("");
            }
            let inner = text::trim(content);
            let empty = text::equal(inner.as_str(), "");
            assert(empty == (inner@.len() == 0)) by {
                if inner@.len() == 0 {
                    assert(inner@ =~= ""@);
                }
            }
            !empty
        },
        None => false,
    }
}

impl CleanupStep {
    /// What is done at this step.
    pub open spec fn to_do(self, device_id: Seq<char>) -> Cleanup {
        let enable = device_dir(device_id) + "/buffer/enable"@;
        let bound = device_dir(device_id) + "/trigger/current_trigger"@;
        match self {
            CleanupStep::CheckBuffer => Cleanup::Read(enable),
            CleanupStep::DisableBuffer => Cleanup::Write { path: enable, text: "0"@ },
            CleanupStep::CheckTrigger => Cleanup::Read(bound),
            CleanupStep::UnbindTrigger => Cleanup::Write { path: bound, text: ""@ },
            CleanupStep::ListScanElements => Cleanup::List(scan_dir(device_id)),
            CleanupStep::Done => Cleanup::Finished,
        }
    }

    /// The step after this one: `content` is what a read brought, and `written` tells whether a
    /// write succeeded. A buffer that cannot be disabled is left as it is, with all the rest.
    pub open spec fn after(self, content: Option<Seq<char>>, written: bool) -> CleanupStep {
        match self {
            CleanupStep::CheckBuffer => if is_enabled(content) {
                CleanupStep::DisableBuffer
            } else {
                CleanupStep::CheckTrigger
            },
            CleanupStep::DisableBuffer => if written {
                CleanupStep::CheckTrigger
            } else {
                CleanupStep::Done
            },
            CleanupStep::CheckTrigger => if is_named(content) {
                CleanupStep::UnbindTrigger
            } else {
                CleanupStep::ListScanElements
            },
            CleanupStep::UnbindTrigger => CleanupStep::ListScanElements,
            CleanupStep::ListScanElements => CleanupStep::Done,
            CleanupStep::Done => CleanupStep::Done,
        }
    }

    /// A bound on the number of steps that are left.
    pub open spec fn remaining(self) -> nat {
        match self {
            CleanupStep::CheckBuffer => 5,
            CleanupStep::DisableBuffer => 4,
            CleanupStep::CheckTrigger => 3,
            CleanupStep::UnbindTrigger => 2,
            CleanupStep::ListScanElements => 1,
            CleanupStep::Done => 0,
        }
    }

    /// What has to be done at this step.
    pub fn action(self, device_id: &str) -> (action: CleanupAction)
        ensures
            action@ == self.to_do(device_id@),
    {
        let mut enable = text::joined(DEVICES_DIR, device_id);
        enable.append("/buffer/enable");
        let mut bound = text::joined(DEVICES_DIR, device_id);
        bound.append("/trigger/current_trigger");
        match self {
            CleanupStep::CheckBuffer => CleanupAction::Read(enable),
            CleanupStep::DisableBuffer => CleanupAction::Write {
                path: enable,
                text: "0".to_owned(),
            },
            CleanupStep::CheckTrigger => CleanupAction::Read(bound),
            CleanupStep::UnbindTrigger => CleanupAction::Write { path: bound, text: "".to_owned() },
            CleanupStep::ListScanElements => CleanupAction::List(scan_elements_dir(device_id)),
            CleanupStep::Done => CleanupAction::Finished,
        }
    }

    /// The step after this one.
    pub fn next(self, content: Option<&str>, written: bool) -> (step: CleanupStep)
        ensures
            step == self.after(optional_view(content), written),
            self != CleanupStep::Done ==> step.remaining() < self.remaining(),
    {
        match self {
            CleanupStep::CheckBuffer => if enabled(content) {
                CleanupStep::DisableBuffer
            } else {
                CleanupStep::CheckTrigger
            },
            CleanupStep::DisableBuffer => if written {
                CleanupStep::CheckTrigger
            } else {
                CleanupStep::Done
            },
            CleanupStep::CheckTrigger => if named(content) {
                CleanupStep::UnbindTrigger
            } else {
                CleanupStep::ListScanElements
            },
            CleanupStep::UnbindTrigger => CleanupStep::ListScanElements,
            CleanupStep::ListScanElements => CleanupStep::Done,
            CleanupStep::Done => CleanupStep::Done,
        }
    }
}

/// Where the removal of what an earlier buffer left behind starts.
pub fn cleanup_iio_buffer_state() -> (step: CleanupStep)
    ensures
        step == CleanupStep::CheckBuffer,
{
    CleanupStep::CheckBuffer
}

/// A file among the scan elements of a device.
pub struct ScanEntry {
    pub name: String,
    /// What the file holds, if it could be read.
    pub content: Option<String>,
}

/// The file enables a scan element.
pub open spec fn is_switch(name: Seq<char>) -> bool {
    "_en"@.is_suffix_of(name)
}

/// The file enables a scan element, and the element is enabled.
pub open spec fn is_on(entry: ScanEntry) -> bool {
    &&& is_switch(entry.name@)
    &&& is_enabled(
        match entry.content {
            Some(text) => Some(text@),
            None => None,
        },
    )
}

/// The places of the scan elements that are enabled.
pub open spec fn switched_on(entries: Seq<ScanEntry>) -> Seq<usize>
    decreases entries.len(),
{
    if entries.len() == 0 {
        Seq::empty()
    } else if is_on(entries.last()) {
        switched_on(entries.drop_last()).push((entries.len() - 1) as usize)
    } else {
        switched_on(entries.drop_last())
    }
}

/// Whether the file enables a scan element.
pub fn enables_scan_element(name: &str) -> (found: bool)
    ensures
        found == is_switch(name@),
{
    text::ends_with(name, "_en")
}

/// The places of the files to which a zero is written, because they enable a scan element.
pub fn scan_elements_to_disable(entries: &Vec<ScanEntry>) -> (places: Vec<usize>)
    ensures
        places@ == switched_on(entries@),
{
    let mut places: Vec<usize> = Vec::new();
    let mut at: usize = 0;
    while at < entries.len()
        invariant
            at <= entries.len(),
            places@ == switched_on(entries@.take(at as int)),
        decreases entries.len() - at,
    {
        assert(entries@.take(at + 1).drop_last() =~= entries@.take(at as int));
        let entry = &entries[at];
        let content = match &entry.content {
            Some(text) => Some(text.as_str()),
            None => None,
        };
        if enables_scan_element(entry.name.as_str()) && enabled(content) {
            places.push(at);
        }
        at = at + 1;
    }
    assert(entries@.take(at as int) =~= entries@);
    places
}

/// What a cleanup meets: the contents of the two files, and whether the buffer can be disabled.
pub struct Residue {
    pub enable: Option<Seq<char>>,
    pub disabled: bool,
    pub trigger: Option<Seq<char>>,
}

/// The steps that a cleanup goes through from `step` on.
pub open spec fn cleanup_steps(step: CleanupStep, residue: Residue) -> Seq<CleanupStep>
    decreases step.remaining(),
{
    match step {
        CleanupStep::Done => Seq::empty(),
        CleanupStep::CheckTrigger => seq![step] + cleanup_steps(
            step.after(residue.trigger, true),
            residue,
        ),
        _ => seq![step] + cleanup_steps(step.after(residue.enable, residue.disabled), residue),
    }
}

/// A cleanup disables the buffer only where it is enabled, unbinds the trigger only where one is
/// bound, and goes on to the scan elements unless a buffer stays enabled.
pub proof fn law_cleanup_order(residue: Residue)
    ensures
        cleanup_steps(CleanupStep::CheckBuffer, residue) == seq![CleanupStep::CheckBuffer] + (
        if is_enabled(residue.enable) {
            seq![CleanupStep::DisableBuffer]
        } else {
            Seq::<CleanupStep>::empty()
        }) + (if is_enabled(residue.enable) && !residue.disabled {
            Seq::<CleanupStep>::empty()
        } else {
            seq![CleanupStep::CheckTrigger] + (if is_named(residue.trigger) {
                seq![CleanupStep::UnbindTrigger]
            } else {
                Seq::<CleanupStep>::empty()
            }) + seq![CleanupStep::ListScanElements]
        }),
{
    reveal_with_fuel(cleanup_steps, 6);
}

/// The storage bits of a sample type are the number between its slash and its shift sign,
/// whatever stands around them.
pub proof fn law_storage_bits_of_a_sample_type(
    format: Seq<char>,
    digits: Seq<char>,
    rest: Seq<char>,
)
    requires
        !format.contains('/'),
        !text::occurs(format, ">>"@),
        digits.len() > 0,
        text::all_digits(digits),
        text::decimal(digits) <= u32::MAX,
    ensures
        storage_bits(format + "/"@ + digits + ">>"@ + rest) == Some(text::decimal(digits)),
        in_order(format + "/"@ + digits + ">>"@ + rest),
{
    reveal_strlit("/");
    reveal_strlit(">>");
    let kind = format + "/"@ + digits + ">>"@ + rest;
    let slash = format.len() as int;
    let shift = slash + 1 + digits.len();
    assert(kind.subrange(slash, slash + 1) =~= "/"@);
    assert forall|i: int| 0 <= i < slash implies !text::matches_at(kind, "/"@, i) by {
        if text::matches_at(kind, "/"@, i) {
            assert(kind.subrange(i, i + 1)[0] == '/');
            assert(format[i] == '/');
        }
    }
    text::lemma_place(kind, "/"@, 0, slash);
    assert(kind.subrange(shift, shift + 2) =~= ">>"@);
    assert forall|i: int| 0 <= i < shift implies !text::matches_at(kind, ">>"@, i) by {
        if text::matches_at(kind, ">>"@, i) {
            assert(kind.subrange(i, i + 2)[0] == '>' && kind.subrange(i, i + 2)[1] == '>');
            assert(kind[i] == '>' && kind[i + 1] == '>');
            if i + 1 < slash {
                assert(format.subrange(i, i + 2) =~= ">>"@);
                assert(text::matches_at(format, ">>"@, i));
            } else if i + 1 == slash {
                assert(kind[slash] == '/');
            } else if i == slash {
                assert(kind[slash] == '/');
            } else {
                assert(kind[i] == digits[i - slash - 1]);
                assert(text::is_digit(digits[i - slash - 1]));
            }
        }
    }
    text::lemma_place(kind, ">>"@, 0, shift);
    assert(kind.subrange(slash + 1, shift) =~= digits);
    assert(text::is_digit(digits[0]));
    assert(text::after_plus(digits) == digits);
}

} // verus!
