//! The sampled flight of one launch, and the decisions that shape it.
//!
//! The caller computes positions and times; a `Flight` decides whether the
//! ball clears the wall, whether a sample at a given time is due, and keeps
//! the samples.
use vstd::prelude::*;
use crate::encoding::{eq, le, lt, ZERO};
use crate::units::{Coordinates, Fitness, Metres, Seconds};

verus! {

/// A position of the ball together with the time it is reached.
#[derive(Clone, Copy, Debug, PartialEq, Eq, Structural)]
pub struct Sample {
    pub time: Seconds,
    pub at: Coordinates,
}

/// Each sample is taken strictly later than every sample before it.
pub open spec fn times_increasing(s: Seq<Sample>) -> bool {
    forall|i: int, j: int| 0 <= i < j < s.len() ==> #[trigger] lt(s[i].time.0, s[j].time.0)
}

/// The ball clears the wall when, at the wall, it is at or above the ground
/// and strictly below the wall's top.
pub open spec fn clears_wall(height_at_wall: Metres, wall_height: Metres) -> bool {
    le(ZERO, height_at_wall.0) && lt(height_at_wall.0, wall_height.0)
}

/// Whether a sample at time `next` is due, after a last sample at `time` and
/// `height` (both zero before the first sample): always the first one; then,
/// for a ball that clears the wall, while `next` is not past the wall;
/// otherwise while the last sample is above the ground.
pub open spec fn keep_flying(
    clears: bool,
    wall_time: Seconds,
    time: Seconds,
    height: Metres,
    next: Seconds,
) -> bool {
    eq(time.0, ZERO) || (clears && le(next.0, wall_time.0)) || (!clears && lt(ZERO, height.0))
}

/// Samples taken so far, each of them when it was due: strictly later than
/// zero and than the sample before; for a ball that clears the wall, every
/// sample after the first at or before the wall time; for one that does not,
/// every sample before the last above the ground.
pub open spec fn sampled_as_due(clears: bool, wall_time: Seconds, s: Seq<Sample>) -> bool {
    &&& times_increasing(s)
    &&& s.len() > 0 ==> lt(ZERO, s[0].time.0)
    &&& clears ==> forall|i: int| 1 <= i < s.len() ==> le(#[trigger] s[i].time.0, wall_time.0)
    &&& !clears ==> forall|i: int| 0 <= i < s.len() - 1 ==> lt(ZERO, #[trigger] s[i].at.y.0)
}

/// A finished flight: at least one sample, each taken when it was due; a ball
/// that does not clear the wall ends at or below the ground.
pub open spec fn flown(clears: bool, wall_time: Seconds, s: Seq<Sample>) -> bool {
    &&& s.len() >= 1
    &&& sampled_as_due(clears, wall_time, s)
    &&& !clears ==> !lt(ZERO, s.last().at.y.0)
}

/// How far a sampled flight went: the horizontal position of its last sample,
/// or zero when there is none.
pub open spec fn distance_of(s: Seq<Sample>) -> Metres {
    if s.len() > 0 {
        s.last().at.x
    } else {
        Metres(ZERO)
    }
}

/// A finished flight.
pub struct Trajectory {
    samples: Vec<Sample>,
    clears: bool,
    wall_time: Seconds,
}

impl View for Trajectory {
    type V = Seq<Sample>;

    closed spec fn view(&self) -> Seq<Sample> {
        self.samples@
    }
}

impl Trajectory {
    #[verifier::type_invariant]
    spec fn inv(self) -> bool {
        flown(self.clears, self.wall_time, self.samples@)
    }

    /// Whether the ball cleared the wall.
    pub closed spec fn spec_clears(self) -> bool {
        self.clears
    }

    /// When the ball reached the wall's horizontal position.
    pub closed spec fn spec_wall_time(self) -> Seconds {
        self.wall_time
    }

    /// Whether the ball cleared the wall.
    pub fn clears(&self) -> (r: bool)
        ensures
            r == self.spec_clears(),
    {
        self.clears
    }

    /// When the ball reached the wall's horizontal position.
    pub fn wall_time(&self) -> (r: Seconds)
        ensures
            r == self.spec_wall_time(),
    {
        self.wall_time
    }

    /// The samples, in the order they were taken.
    pub fn samples(&self) -> (r: &Vec<Sample>)
        ensures
            r@ == self@,
            flown(self.spec_clears(), self.spec_wall_time(), r@),
    {
        proof {
            use_type_invariant(self);
        }
        &self.samples
    }

    /// The horizontal position of the last sample.
    pub fn distance(&self) -> (r: Metres)
        ensures
            r == distance_of(self@),
    {
        match self.samples.last() {
            Some(s) => s.at.x,
            None => Metres(ZERO),
        }
    }
}

/// The fitness of a flight: the distance it reached.
pub fn evaluate(trajectory: &Trajectory) -> (r: Fitness)
    ensures
        r == Fitness(distance_of(trajectory@).0),
{
    Fitness(trajectory.distance().0)
}

/// A flight being sampled.
pub struct Flight {
    clears: bool,
    wall_time: Seconds,
    time: Seconds,
    height: Metres,
    samples: Vec<Sample>,
}

impl View for Flight {
    type V = Seq<Sample>;

    closed spec fn view(&self) -> Seq<Sample> {
        self.samples@
    }
}

impl Flight {
    /// The samples were each taken when due, and the last one gives the
    /// current time and height (both zero before the first sample).
    pub closed spec fn wf(self) -> bool {
        &&& sampled_as_due(self.clears, self.wall_time, self.samples@)
        &&& self.samples@.len() == 0 ==> self.time == Seconds(ZERO) && self.height == Metres(ZERO)
        &&& self.samples@.len() > 0 ==> self.time == self.samples@.last().time && self.height
            == self.samples@.last().at.y
    }

    /// Whether the ball clears the wall.
    pub closed spec fn spec_clears(self) -> bool {
        self.clears
    }

    /// When the ball reaches the wall's horizontal position.
    pub closed spec fn spec_wall_time(self) -> Seconds {
        self.wall_time
    }

    /// The time of the last sample, zero before the first.
    pub closed spec fn spec_time(self) -> Seconds {
        self.time
    }

    /// The height of the last sample, zero before the first.
    pub closed spec fn spec_height(self) -> Metres {
        self.height
    }

    /// Whether a sample at time `next` is due.
    pub open spec fn due(self, next: Seconds) -> bool {
        keep_flying(
            self.spec_clears(),
            self.spec_wall_time(),
            self.spec_time(),
            self.spec_height(),
            next,
        )
    }

    /// Starts a flight, given the ball's height where it meets the wall's
    /// horizontal position, the wall's height, and when it gets there.
    pub fn launch(height_at_wall: Metres, wall_height: Metres, wall_time: Seconds) -> (r: Flight)
        ensures
            r.wf(),
            r.spec_clears() == clears_wall(height_at_wall, wall_height),
            r.spec_wall_time() == wall_time,
            r.spec_time() == Seconds(ZERO),
            r.spec_height() == Metres(ZERO),
            r@ == Seq::<Sample>::empty(),
    {
        let clears = !height_at_wall.less_than(&Metres(ZERO)) && height_at_wall.less_than(
            &wall_height,
        );
        Flight {
            clears,
            wall_time,
            time: Seconds(ZERO),
            height: Metres(ZERO),
            samples: Vec::new(),
        }
    }

    /// Whether a sample at time `next` is due.
    pub fn wants_sample(&self, next: Seconds) -> (r: bool)
        ensures
            r == self.due(next),
    {
        self.time.is_zero() || (self.clears && next.at_most(&self.wall_time)) || (!self.clears
            && self.height.is_positive())
    }

    /// Records the ball at `at` at `time`, which must be due and come strictly
    /// after the previous sample (after zero for the first).
    pub fn record(&mut self, time: Seconds, at: Coordinates)
        requires
            old(self).wf(),
            old(self).due(time),
            lt(old(self).spec_time().0, time.0),
        ensures
            final(self).wf(),
            final(self)@ == old(self)@.push(Sample { time, at }),
            final(self).spec_clears() == old(self).spec_clears(),
            final(self).spec_wall_time() == old(self).spec_wall_time(),
            final(self).spec_time() == time,
            final(self).spec_height() == at.y,
    {
        let ghost before = self.samples@;
        proof {
            if before.len() > 1 {
                assert(lt(before[0].time.0, before[before.len() - 1].time.0));
            }
        }
        self.samples.push(Sample { time, at });
        proof {
            let after = self.samples@;
            assert forall|i: int, j: int| 0 <= i < j < after.len() implies #[trigger] lt(
                after[i].time.0,
                after[j].time.0,
            ) by {
                if j == before.len() && i < before.len() - 1 {
                    assert(lt(before[i].time.0, before[before.len() - 1].time.0));
                }
            }
            if self.clears {
                assert forall|i: int| 1 <= i < after.len() implies le(
                    #[trigger] after[i].time.0,
                    self.wall_time.0,
                ) by {
                    if i < before.len() {
                        assert(le(before[i].time.0, self.wall_time.0));
                    }
                }
            } else {
                assert forall|i: int| 0 <= i < after.len() - 1 implies lt(
                    ZERO,
                    #[trigger] after[i].at.y.0,
                ) by {
                    if i < before.len() - 1 {
                        assert(lt(ZERO, before[i].at.y.0));
                    }
                }
            }
        }
        self.time = time;
        self.height = at.y;
    }

    /// Ends a flight once a sample at time `next` is not due.
    pub fn finish(self, next: Seconds) -> (r: Trajectory)
        requires
            self.wf(),
            !self.due(next),
        ensures
            r@ == self@,
            r.spec_clears() == self.spec_clears(),
            r.spec_wall_time() == self.spec_wall_time(),
            flown(r.spec_clears(), r.spec_wall_time(), r@),
    {
        Trajectory { samples: self.samples, clears: self.clears, wall_time: self.wall_time }
    }
}

} // verus!
