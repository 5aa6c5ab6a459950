//! Setting the sample rate of a sensor.

use vstd::prelude::*;

use crate::float;
use crate::float::Float;

use super::info::ChannelKind;

verus! {

/// The pattern of 200.0, the sample rate where nothing else is known.
pub const DEFAULT_SAMPLE_RATE: u64 = 0x4069_0000_0000_0000;

/// There is a list, and it has an entry.
pub open spec fn usable(list: Option<Vec<Float>>) -> bool {
    list matches Some(rates) && rates@.len() > 0
}

/// The first list with an entry, or else the one of the device, or else none.
pub open spec fn first_usable(lists: Seq<Option<Vec<Float>>>, device: Option<Vec<Float>>) -> Seq<
    Float,
>
    decreases lists.len(),
{
    if lists.len() == 0 {
        match device {
            Some(rates) => rates@,
            None => Seq::empty(),
        }
    } else if usable(lists[0]) {
        lists[0]->0@
    } else {
        first_usable(lists.skip(1), device)
    }
}

/// The sample rates that a sensor can have: `channels` are those that its channels list, as far as
/// they could be read, and `device` those that the device lists for all of them.
pub fn read_sample_rates_available(
    channels: Vec<Option<Vec<Float>>>,
    device: Option<Vec<Float>>,
) -> (rates: Vec<Float>)
    ensures
        rates@ == first_usable(channels@, device),
{
    let ghost lists = channels@;
    assert(lists.skip(0) =~= lists);
    for list in it: channels
        invariant
            it.seq() == lists,
            first_usable(lists, device) == first_usable(lists.skip(it.index() as int), device),
    {
        let ghost rest = lists.skip(it.index() as int);
        assert(rest[0] == list);
        assert(rest.skip(1) =~= lists.skip(it.index() + 1));
        if let Some(rates) = list {
            if rates.len() > 0 {
                return rates;
            }
        }
    }
    match device {
        Some(rates) => rates,
        None => Vec::new(),
    }
}

/// `rate` is the one to set: the configured one, or else the greatest that is available, or else
/// [`DEFAULT_SAMPLE_RATE`].
pub open spec fn is_rate_to_set(configured: Option<Float>, available: Seq<Float>, rate: Float) -> bool {
    match configured {
        Some(configured) => rate == configured,
        None => if available.len() > 0 {
            float::is_maximum(available, rate)
        } else {
            rate.bits == DEFAULT_SAMPLE_RATE
        },
    }
}

/// The sample rate to set.
pub fn rate_to_set(configured: Option<Float>, available: &Vec<Float>) -> (rate: Float)
    ensures
        is_rate_to_set(configured, available@, rate),
{
    match configured {
        Some(rate) => rate,
        None => if available.len() > 0 {
            float::maximum(available)
        } else {
            Float { bits: DEFAULT_SAMPLE_RATE }
        },
    }
}

/// The sample rate of the trigger: the configured one, or else [`DEFAULT_SAMPLE_RATE`].
pub fn trigger_rate(configured: Option<Float>) -> (rate: Float)
    ensures
        rate == (match configured {
            Some(rate) => rate,
            None => Float { bits: DEFAULT_SAMPLE_RATE },
        }),
{
    match configured {
        Some(rate) => rate,
        None => Float { bits: DEFAULT_SAMPLE_RATE },
    }
}

/// The attribute of the device that sets the rate of all channels of a kind.
pub open spec fn device_attribute(kind: ChannelKind) -> Option<Seq<char>> {
    match kind {
        ChannelKind::Accel => Some("in_accel_sampling_frequency"@),
        ChannelKind::AnglVel => Some("in_anglvel_sampling_frequency"@),
        ChannelKind::Other => None,
    }
}

/// The attribute of the device that lists the rates of all channels of a kind.
pub open spec fn device_list_attribute(kind: ChannelKind) -> Option<Seq<char>> {
    match kind {
        ChannelKind::Accel => Some("in_accel_sampling_frequency_available"@),
        ChannelKind::AnglVel => Some("in_anglvel_sampling_frequency_available"@),
        ChannelKind::Other => None,
    }
}

/// The attribute of the device that sets the rate of all channels of a kind.
pub fn rate_attribute(kind: ChannelKind) -> (attribute: Option<&'static str>)
    ensures
        match attribute {
            Some(name) => device_attribute(kind) == Some(name@),
            None => device_attribute(kind) is None,
        },
{
    match kind {
        ChannelKind::Accel => Some("in_accel_sampling_frequency"),
        ChannelKind::AnglVel => Some("in_anglvel_sampling_frequency"),
        ChannelKind::Other => None,
    }
}

/// The attribute of the device that lists the rates of all channels of a kind.
pub fn rate_list_attribute(kind: ChannelKind) -> (attribute: Option<&'static str>)
    ensures
        match attribute {
            Some(name) => device_list_attribute(kind) == Some(name@),
            None => device_list_attribute(kind) is None,
        },
{
    match kind {
        ChannelKind::Accel => Some("in_accel_sampling_frequency_available"),
        ChannelKind::AnglVel => Some("in_anglvel_sampling_frequency_available"),
        ChannelKind::Other => None,
    }
}

/// The sensors whose rate is set: those that have a channel, the accelerometer first.
pub open spec fn sensors_with_channels(accel: nat, gyro: nat) -> Seq<ChannelKind> {
    (if accel > 0 {
        seq![ChannelKind::Accel]
    } else {
        Seq::<ChannelKind>::empty()
    }) + (if gyro > 0 {
        seq![ChannelKind::AnglVel]
    } else {
        Seq::<ChannelKind>::empty()
    })
}

/// The sensors whose rate is set, by the number of their channels.
pub fn sensors_to_set(accel: usize, gyro: usize) -> (sensors: Vec<ChannelKind>)
    ensures
        sensors@ == sensors_with_channels(accel as nat, gyro as nat),
{
    let mut sensors: Vec<ChannelKind> = Vec::new();
    if accel > 0 {
        sensors.push(ChannelKind::Accel);
    }
    if gyro > 0 {
        sensors.push(ChannelKind::AnglVel);
    }
    assert(sensors@ =~= sensors_with_channels(accel as nat, gyro as nat));
    sensors
}

/// Where setting the rate stands: the thing to do next.
#[derive(Clone, Copy, Debug, PartialEq, Eq, Structural)]
pub enum RateStep {
    /// Write the rate to the channel in that place.
    Channel(usize),
    /// Write the rate to the attribute of the device.
    Device,
    /// Nothing is left to do.
    Done,
}

/// The first step for a sensor with that many channels.
pub open spec fn first_step(channels: nat) -> RateStep {
    if channels == 0 {
        RateStep::Device
    } else {
        RateStep::Channel(0)
    }
}

impl RateStep {
    /// The step after this one: the rate is set once one write succeeded.
    pub open spec fn after(self, channels: nat, written: bool) -> RateStep {
        match self {
            RateStep::Channel(at) => if written {
                RateStep::Done
            } else if at + 1 < channels {
                RateStep::Channel((at + 1) as usize)
            } else {
                RateStep::Device
            },
            _ => RateStep::Done,
        }
    }

    /// The step after this one, where the sensor has `channels` channels and the write of this step
    /// succeeded or not.
    pub fn next(self, channels: usize, written: bool) -> (step: RateStep)
        ensures
            step == self.after(channels as nat, written),
    {
        match self {
            RateStep::Channel(at) => if written {
                RateStep::Done
            } else if at < channels && at + 1 < channels {
                RateStep::Channel(at + 1)
            } else {
                RateStep::Device
            },
            _ => RateStep::Done,
        }
    }
}

/// Where setting the rate of a sensor with `channels` channels starts.
pub fn set_sample_rate(channels: usize) -> (step: RateStep)
    ensures
        step == first_step(channels as nat),
{
    if channels == 0 {
        RateStep::Device
    } else {
        RateStep::Channel(0)
    }
}

/// The step after `count` writes that all failed.
pub open spec fn after_failures(channels: nat, count: nat) -> RateStep
    decreases count,
{
    if count == 0 {
        first_step(channels)
    } else {
        after_failures(channels, (count - 1) as nat).after(channels, false)
    }
}

/// The rate is offered to every channel in turn, and to the device only once all of them refused
/// it.
pub proof fn law_every_channel_is_tried_before_the_device(channels: usize, count: nat)
    requires
        count <= channels,
    ensures
        count < channels ==> after_failures(channels as nat, count) == RateStep::Channel(
            count as usize,
        ),
        count == channels ==> after_failures(channels as nat, count) == RateStep::Device,
    decreases count,
{
    if count > 0 {
        law_every_channel_is_tried_before_the_device(channels, (count - 1) as nat);
    }
}

} // verus!
