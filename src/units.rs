//! Quantities of distinct units, each held as a binary64 encoding.
use vstd::prelude::*;
use crate::encoding::{at_most, eq, le, less, lt, ZERO};

verus! {

/// A speed in metres per second.
#[derive(Clone, Copy, Debug, PartialEq, Eq, Structural)]
pub struct MetresPerSecond(pub u64);

/// An angle in radians.
#[derive(Clone, Copy, Debug, PartialEq, Eq, Structural)]
pub struct Radians(pub u64);

/// A duration in seconds.
#[derive(Clone, Copy, Debug, PartialEq, Eq, Structural)]
pub struct Seconds(pub u64);

/// A length in metres.
#[derive(Clone, Copy, Debug, PartialEq, Eq, Structural)]
pub struct Metres(pub u64);

/// How good a launch is: the bigger, the better.
#[derive(Clone, Copy, Debug, PartialEq, Eq, Structural)]
pub struct Fitness(pub u64);

/// A point of a flight: horizontal and vertical distance from the cannon.
#[derive(Clone, Copy, Debug, PartialEq, Eq, Structural)]
pub struct Coordinates {
    pub x: Metres,
    pub y: Metres,
}

impl Metres {
    /// Whether the length is above zero.
    pub fn is_positive(&self) -> (r: bool)
        ensures
            r == lt(ZERO, self.0),
    {
        less(ZERO, self.0)
    }

    /// Whether this length is below `other`.
    pub fn less_than(&self, other: &Metres) -> (r: bool)
        ensures
            r == lt(self.0, other.0),
    {
        less(self.0, other.0)
    }
}

impl Seconds {
    /// Whether the duration is zero.
    pub fn is_zero(&self) -> (r: bool)
        ensures
            r == eq(self.0, ZERO),
    {
        crate::encoding::equal(self.0, ZERO)
    }

    /// Whether this duration is at most `other`.
    pub fn at_most(&self, other: &Seconds) -> (r: bool)
        ensures
            r == le(self.0, other.0),
    {
        at_most(self.0, other.0)
    }
}

impl Fitness {
    /// Whether this fitness is strictly better than `other`.
    pub fn better_than(&self, other: &Fitness) -> (r: bool)
        ensures
            r == lt(other.0, self.0),
    {
        less(other.0, self.0)
    }
}

} // verus!
