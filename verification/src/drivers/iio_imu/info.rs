//! What is known of a sensor and its channels.

use vstd::prelude::*;

use crate::float::Float;
use crate::table::Table;

verus! {

/// The pattern of 0.0.
pub const ZERO: u64 = 0x0000_0000_0000_0000;

/// The pattern of 1.0.
pub const ONE: u64 = 0x3ff0_0000_0000_0000;

/// The pattern of 4.0.
pub const FOUR: u64 = 0x4010_0000_0000_0000;

/// How a sensor is mounted inside the device: the rows by which its readings are multiplied.
#[derive(Clone, Copy, Debug, PartialEq, Eq)]
pub struct MountMatrix {
    pub x: (Float, Float, Float),
    pub y: (Float, Float, Float),
    pub z: (Float, Float, Float),
}

impl MountMatrix {
    /// The matrix that leaves readings as they are.
    pub open spec fn identity() -> MountMatrix {
        let zero = Float { bits: ZERO };
        let one = Float { bits: ONE };
        MountMatrix { x: (one, zero, zero), y: (zero, one, zero), z: (zero, zero, one) }
    }
}

impl Default for MountMatrix {
    fn default() -> (matrix: Self)
        ensures
            matrix == MountMatrix::identity(),
    {
        let zero = Float { bits: ZERO };
        let one = Float { bits: ONE };
        MountMatrix { x: (one, zero, zero), y: (zero, one, zero), z: (zero, zero, one) }
    }
}

/// What is known of a channel.
#[derive(Clone, Debug)]
pub struct AxisInfo {
    /// Added to each raw value.
    pub offset: i64,
    /// Samples per second.
    pub sample_rate: Float,
    /// The sample rates that the channel can have.
    pub sample_rates_avail: Vec<Float>,
    /// What a raw value is multiplied by, after the offset was added.
    pub scale: Float,
    /// The scales that the channel can have.
    pub scales_avail: Vec<Float>,
}

/// The contents of an [`AxisInfo`].
#[verifier::ext_equal]
pub struct Axis {
    pub offset: i64,
    pub sample_rate: Float,
    pub sample_rates_avail: Seq<Float>,
    pub scale: Float,
    pub scales_avail: Seq<Float>,
}

impl View for AxisInfo {
    type V = Axis;

    open spec fn view(&self) -> Axis {
        Axis {
            offset: self.offset,
            sample_rate: self.sample_rate,
            sample_rates_avail: self.sample_rates_avail@,
            scale: self.scale,
            scales_avail: self.scales_avail@,
        }
    }
}

/// What a channel measures.
#[derive(Clone, Copy, Debug, PartialEq, Eq, Structural)]
pub enum ChannelKind {
    Accel,
    AnglVel,
    Other,
}

/// A channel of a device, with the attributes that could be read.
pub struct FoundChannel {
    pub kind: ChannelKind,
    pub id: Option<String>,
    pub offset: Option<i64>,
    pub sample_rate: Option<Float>,
    pub sample_rates_avail: Option<Vec<Float>>,
    pub scale: Option<Float>,
    pub scales_avail: Option<Vec<Float>>,
}

/// The list, or the list of the one value `otherwise` where there is none.
pub open spec fn list_or(list: Option<Vec<Float>>, otherwise: Float) -> Seq<Float> {
    match list {
        Some(list) => list@,
        None => seq![otherwise],
    }
}

impl FoundChannel {
    /// What is known of the channel. An attribute that could not be read has a default.
    pub open spec fn axis(self) -> Axis {
        Axis {
            offset: match self.offset {
                Some(offset) => offset,
                None => 0,
            },
            sample_rate: match self.sample_rate {
                Some(rate) => rate,
                None => Float { bits: FOUR },
            },
            sample_rates_avail: list_or(self.sample_rates_avail, Float { bits: FOUR }),
            scale: match self.scale {
                Some(scale) => scale,
                None => Float { bits: ONE },
            },
            scales_avail: list_or(self.scales_avail, Float { bits: ONE }),
        }
    }
}

/// The channels of one kind that have an id, by their ids. Of two with the same id the later one
/// is kept.
pub open spec fn channels_of(found: Seq<FoundChannel>, kind: ChannelKind) -> Map<Seq<char>, Axis>
    decreases found.len(),
{
    if found.len() == 0 {
        Map::empty()
    } else {
        let before = channels_of(found.drop_last(), kind);
        match found.last().id {
            Some(id) if found.last().kind == kind => before.insert(id@, found.last().axis()),
            _ => before,
        }
    }
}

/// The ids of the channels of one kind, in the order in which they were first found.
pub open spec fn channel_order(found: Seq<FoundChannel>, kind: ChannelKind) -> Seq<Seq<char>>
    decreases found.len(),
{
    if found.len() == 0 {
        Seq::empty()
    } else {
        let before = channel_order(found.drop_last(), kind);
        match found.last().id {
            Some(id) if found.last().kind == kind && !before.contains(id@) => before.push(id@),
            _ => before,
        }
    }
}

/// The contents of each entry.
pub open spec fn axes(infos: Map<Seq<char>, AxisInfo>) -> Map<Seq<char>, Axis> {
    Map::new(|id: Seq<char>| infos.contains_key(id), |id: Seq<char>| infos[id]@)
}

/// The list, or the list of the one value `otherwise` where there is none.
fn list_or_else(list: Option<Vec<Float>>, otherwise: Float) -> (result: Vec<Float>)
    ensures
        result@ == list_or(list, otherwise),
{
    match list {
        Some(list) => list,
        None => {
            let mut result: Vec<Float> = Vec::new();
            result.push(otherwise);
            assert(result@ =~= seq![otherwise]);
            result
        },
    }
}

/// Returns channel information of all channels that were found, matching the given channel type.
pub fn get_channels_with_type(found: Vec<FoundChannel>, kind: ChannelKind) -> (channels: Table<
    AxisInfo,
>)
    ensures
        channels.wf(),
        axes(channels@) == channels_of(found@, kind),
        channels.order() == channel_order(found@, kind),
{
    let mut channels: Table<AxisInfo> = Table::new();
    assert(axes(channels@) =~= channels_of(found@.take(0), kind));
    assert(channels.order() =~= channel_order(found@.take(0), kind));
    for channel in it: found
        invariant
            it.seq() == found@,
            channels.wf(),
            axes(channels@) == channels_of(found@.take(it.index() as int), kind),
            channels.order() == channel_order(found@.take(it.index() as int), kind),
    {
        let ghost before = channels;
        let ghost at = it.index() as int;
        assert(found@.take(at + 1).drop_last() =~= found@.take(at));
        assert(found@.take(at + 1).last() == channel);
        let ghost axis = channel.axis();
        if channel.kind == kind {
            if let Some(id) = channel.id {
                let info = AxisInfo {
                    offset: match channel.offset {
                        Some(offset) => offset,
                        None => 0,
                    },
                    sample_rate: match channel.sample_rate {
                        Some(rate) => rate,
                        None => Float { bits: FOUR },
                    },
                    sample_rates_avail: list_or_else(
                        channel.sample_rates_avail,
                        Float { bits: FOUR },
                    ),
                    scale: match channel.scale {
                        Some(scale) => scale,
                        None => Float { bits: ONE },
                    },
                    scales_avail: list_or_else(channel.scales_avail, Float { bits: ONE }),
                };
                assert(info@ =~= axis);
                let ghost name = id@;
                channels.insert(id, info);
                assert(axes(channels@) =~= axes(before@).insert(name, axis));
                proof {
                    before.lemma_order();
                    assert(before.order().contains(name) <==> before@.contains_key(name));
                }
            }
        }
    }
    assert(found@.take(found@.len() as int) =~= found@);
    channels
}

} // verus!
