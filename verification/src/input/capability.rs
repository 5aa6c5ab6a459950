//! What a device can do.

use vstd::prelude::*;

verus! {

/// A thing that a device can report.
#[derive(Clone, Copy, Debug, PartialEq, Eq, Structural)]
pub enum Capability {
    Gamepad(Gamepad),
    Accelerometer(Source),
    Gyroscope(Source),
}

/// Which of several sensors of one kind is meant.
#[derive(Clone, Copy, Debug, PartialEq, Eq, Structural)]
pub enum Source {
    Center,
}

/// A thing that a gamepad can report.
#[derive(Clone, Copy, Debug, PartialEq, Eq, Structural)]
pub enum Gamepad {
    Button(GamepadButton),
    Axis(GamepadAxis),
    Trigger(GamepadTrigger),
    Accelerometer,
    Gyro,
}

#[derive(Clone, Copy, Debug, PartialEq, Eq, Structural)]
pub enum GamepadButton {
    South,
    East,
    West,
    North,
    LeftBumper,
    RightBumper,
    Start,
    Select,
    LeftStick,
    RightStick,
    DPadUp,
    DPadDown,
    DPadLeft,
    DPadRight,
    LeftPaddle1,
    RightPaddle1,
    Keyboard,
    Guide,
}

#[derive(Clone, Copy, Debug, PartialEq, Eq, Structural)]
pub enum GamepadAxis {
    LeftStick,
    RightStick,
}

#[derive(Clone, Copy, Debug, PartialEq, Eq, Structural)]
pub enum GamepadTrigger {
    LeftTrigger,
    RightTrigger,
}

/// A thing that a device can be told to do.
#[derive(Clone, Copy, Debug, PartialEq, Eq, Structural)]
pub enum OutputCapability {
    ForceFeedback,
}

/// A set of capabilities. Each is held once.
#[derive(Debug)]
pub struct CapabilitySet {
    items: Vec<Capability>,
}

impl View for CapabilitySet {
    type V = Set<Capability>;

    closed spec fn view(&self) -> Set<Capability> {
        self.items@.to_set()
    }
}

impl CapabilitySet {
    /// No capability is held twice.
    pub closed spec fn wf(&self) -> bool {
        self.items@.no_duplicates()
    }

    /// The empty set.
    pub fn new() -> (set: Self)
        ensures
            set.wf(),
            set@ == Set::<Capability>::empty(),
    {
        let set = CapabilitySet { items: Vec::new() };
        assert(set@ =~= Set::empty());
        set
    }

    /// Whether `capability` is in the set.
    pub fn contains(&self, capability: Capability) -> (found: bool)
        ensures
            found == self@.contains(capability),
    {
        let mut at: usize = 0;
        while at < self.items.len()
            invariant
                at <= self.items.len(),
                forall|i: int| 0 <= i < at ==> self.items@[i] != capability,
            decreases self.items.len() - at,
        {
            if self.items[at] == capability {
                assert(self.items@.contains(capability));
                return true;
            }
            at = at + 1;
        }
        false
    }

    /// Adds `capability` to the set.
    pub fn insert(&mut self, capability: Capability)
        requires
            old(self).wf(),
        ensures
            final(self).wf(),
            final(self)@ == old(self)@.insert(capability),
    {
        let ghost before = self.items@;
        if !self.contains(capability) {
            assert(!before.contains(capability));
            self.items.push(capability);
            assert(self.items@.no_duplicates());
            assert(self@ =~= before.to_set().insert(capability)) by {
                assert(self.items@[before.len() as int] == capability);
                assert forall|c: Capability| before.contains(c) implies self.items@.contains(c) by {
                    let i = before.index_of(c);
                    assert(self.items@[i] == c);
                }
            }
        } else {
            assert(self@ =~= self@.insert(capability));
        }
    }

    /// A set with the same capabilities.
    pub fn duplicate(&self) -> (set: Self)
        requires
            self.wf(),
        ensures
            set.wf(),
            set@ == self@,
    {
        let items = self.items.clone();
        assert(items@ =~= self.items@);
        CapabilitySet { items }
    }

    /// How many capabilities are in the set.
    pub fn len(&self) -> (n: usize)
        requires
            self.wf(),
        ensures
            n == self@.len(),
    {
        proof {
            self.items@.unique_seq_to_set();
        }
        self.items.len()
    }
}

/// A set counts each capability once: inserting one that it lacks adds one, and inserting one that it
/// holds adds none.
pub proof fn law_each_is_counted_once(
    set: &mut CapabilitySet,
    capability: Capability,
    before: usize,
    after: usize,
)
    requires
        old(set).wf(),
        call_ensures(CapabilitySet::len, (&*old(set),), before),
        call_ensures(CapabilitySet::insert, (set, capability), ()),
        call_ensures(CapabilitySet::len, (&*final(set),), after),
    ensures
        old(set)@.contains(capability) ==> after == before,
        !old(set)@.contains(capability) ==> after == before + 1,
{
    let items = old(set).items@;
    items.unique_seq_to_set();
    vstd::seq_lib::seq_to_set_is_finite(items);
    if old(set)@.contains(capability) {
        assert(old(set)@.insert(capability) =~= old(set)@);
    }
}

} // verus!
