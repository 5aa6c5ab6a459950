//! Choosing the trigger by which a sensor is sampled.

use vstd::prelude::*;

use crate::text;

verus! {

/// An IIO device that may be a trigger.
pub struct Candidate {
    pub is_trigger: bool,
    pub name: Option<String>,
}

impl Candidate {
    /// The name, empty where there is none.
    pub open spec fn title(self) -> Seq<char> {
        match self.name {
            Some(name) => name@,
            None => Seq::empty(),
        }
    }
}

/// The device in place `at` could be read and is a trigger.
pub open spec fn trigger_at(devices: Seq<Option<Candidate>>, at: int) -> bool {
    devices[at] matches Some(candidate) && candidate.is_trigger
}

/// The device in place `at` is a trigger driven by a high resolution timer.
pub open spec fn timer_at(devices: Seq<Option<Candidate>>, at: int) -> bool {
    trigger_at(devices, at) && text::occurs(devices[at]->0.title(), "hrtimer"@)
}

/// The device in place `at` is a trigger whose name starts with that of the sensor.
pub open spec fn matched_at(devices: Seq<Option<Candidate>>, at: int, sensor: Seq<char>) -> bool {
    trigger_at(devices, at) && sensor.is_prefix_of(devices[at]->0.title())
}

/// `at` is the first place for which `holds`.
pub open spec fn first_where(len: nat, at: int, holds: spec_fn(int) -> bool) -> bool {
    0 <= at < len && holds(at) && forall|i: int| 0 <= i < at ==> !#[trigger] holds(i)
}

/// No place is one for which `holds`.
pub open spec fn nowhere(len: nat, holds: spec_fn(int) -> bool) -> bool {
    forall|i: int| 0 <= i < len ==> !#[trigger] holds(i)
}

/// The trigger in place `at` is the one to use: the first timer, or else the first that matches
/// the sensor, or else the first of all.
pub open spec fn is_choice(devices: Seq<Option<Candidate>>, sensor: Seq<char>, at: int) -> bool {
    let timer = |i: int| timer_at(devices, i);
    let matched = |i: int| matched_at(devices, i, sensor);
    let any = |i: int| trigger_at(devices, i);
    ||| first_where(devices.len(), at, timer)
    ||| nowhere(devices.len(), timer) && first_where(devices.len(), at, matched)
    ||| nowhere(devices.len(), timer) && nowhere(devices.len(), matched) && first_where(
        devices.len(),
        at,
        any,
    )
}

/// Chooses the trigger for the sensor `device_name` among `devices`, and gives its place.
pub fn find_trigger(devices: &Vec<Option<Candidate>>, device_name: &str) -> (place: Option<usize>)
    ensures
        match place {
            Some(at) => is_choice(devices@, device_name@, at as int),
            None => nowhere(devices@.len(), |i: int| trigger_at(devices@, i)),
        },
{
    let ghost timer = |i: int| timer_at(devices@, i);
    let ghost matched = |i: int| matched_at(devices@, i, device_name@);
    let ghost any = |i: int| trigger_at(devices@, i);
    let mut matched_trigger: Option<usize> = None;
    let mut fallback_trigger: Option<usize> = None;
    let mut at: usize = 0;
    while at < devices.len()
        invariant
            at <= devices.len(),
            timer == (|i: int| timer_at(devices@, i)),
            matched == (|i: int| matched_at(devices@, i, device_name@)),
            any == (|i: int| trigger_at(devices@, i)),
            nowhere(at as nat, timer),
            match matched_trigger {
                Some(place) => first_where(at as nat, place as int, matched),
                None => {
                    &&& nowhere(at as nat, matched)
                    &&& match fallback_trigger {
                        Some(place) => first_where(at as nat, place as int, any),
                        None => nowhere(at as nat, any),
                    }
                },
            },
        decreases devices.len() - at,
    {
        assert(timer(at as int) == timer_at(devices@, at as int));
        assert(matched(at as int) == matched_at(devices@, at as int, device_name@));
        assert(any(at as int) == trigger_at(devices@, at as int));
        if let Some(candidate) = &devices[at] {
            if candidate.is_trigger {
                let empty = "";
                let name = match &candidate.name {
                    Some(name) => name.as_str(),
                    None => empty,
                };
                proof {
                    reveal_strlit("");
                    assert(name@ =~= candidate.title());
                }
                if text::contains(name, "hrtimer") {
                    assert(first_where(devices@.len(), at as int, timer));
                    return Some(at);
                }
                if matched_trigger.is_none() && text::starts_with(name, device_name) {
                    matched_trigger = Some(at);
                } else if fallback_trigger.is_none() {
                    fallback_trigger = Some(at);
                }
            }
        }
        at = at + 1;
    }
    match matched_trigger {
        Some(place) => Some(place),
        None => fallback_trigger,
    }
}

} // verus!
