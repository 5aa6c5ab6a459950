//! Floating point numbers, carried as their bit patterns.

use vstd::prelude::*;

verus! {

/// An IEEE 754 double, as its bit pattern.
#[derive(Clone, Copy, Debug, PartialEq, Eq, Structural)]
pub struct Float {
    pub bits: u64,
}

/// The bit that marks negative numbers.
pub const SIGN: u64 = 0x8000_0000_0000_0000;

/// The pattern of positive infinity. Larger patterns without the sign bit are not numbers.
pub const INFINITY: u64 = 0x7ff0_0000_0000_0000;

/// The pattern of negative infinity.
pub const NEG_INFINITY: u64 = 0xfff0_0000_0000_0000;

impl Float {
    /// The pattern without the sign bit.
    pub open spec fn magnitude(self) -> int {
        if self.bits >= SIGN {
            self.bits - SIGN
        } else {
            self.bits as int
        }
    }

    /// The pattern stands for no number.
    pub open spec fn is_nan(self) -> bool {
        self.magnitude() > INFINITY
    }

    /// An integer by which numbers are ordered: patterns grow with the magnitude of the number.
    /// Both zeros have rank zero.
    pub open spec fn rank(self) -> int {
        if self.bits >= SIGN {
            -self.magnitude()
        } else {
            self.magnitude()
        }
    }

    /// Whether the pattern stands for no number.
    pub fn not_a_number(self) -> (nan: bool)
        ensures
            nan == self.is_nan(),
    {
        let magnitude: u64 = if self.bits >= SIGN { self.bits - SIGN } else { self.bits };
        magnitude > INFINITY
    }

    /// Whether this number is less than `other`.
    pub fn less_than(self, other: Float) -> (less: bool)
        ensures
            less == (self.rank() < other.rank()),
    {
        if self.bits >= SIGN {
            if other.bits >= SIGN {
                self.bits > other.bits
            } else {
                self.bits > SIGN || other.bits > 0
            }
        } else if other.bits >= SIGN {
            false
        } else {
            self.bits < other.bits
        }
    }
}

/// `max` is the greatest of the numbers among `values`, or negative infinity where there is none.
pub open spec fn is_maximum(values: Seq<Float>, max: Float) -> bool {
    &&& !max.is_nan()
    &&& max.bits == NEG_INFINITY || values.contains(max)
    &&& forall|i: int| 0 <= i < values.len() && !(#[trigger] values[i]).is_nan() ==> values[i].rank()
        <= max.rank()
}

/// The greatest of the numbers among `values`.
pub fn maximum(values: &Vec<Float>) -> (max: Float)
    ensures
        is_maximum(values@, max),
{
    let mut max = Float { bits: NEG_INFINITY };
    let mut at: usize = 0;
    while at < values.len()
        invariant
            at <= values.len(),
            is_maximum(values@.take(at as int), max),
        decreases values.len() - at,
    {
        let value = values[at];
        let ghost before = values@.take(at as int);
        let ghost after = values@.take(at + 1);
        assert(after =~= before.push(value));
        assert(after[at as int] == value);
        proof {
            if before.contains(max) {
                let i = choose|i: int| 0 <= i < before.len() && before[i] == max;
                assert(after[i] == max);
            }
            assert forall|i: int| 0 <= i < before.len() && !(
            #[trigger] after[i]).is_nan() implies after[i].rank() <= max.rank() by {
                assert(after[i] == before[i]);
            }
        }
        if !value.not_a_number() && max.less_than(value) {
            max = value;
            assert(after.contains(value));
        }
        at = at + 1;
    }
    assert(values@.take(at as int) =~= values@);
    max
}

} // verus!
