//! Launch configurations: a speed and an elevation, validated on construction.
use vstd::prelude::*;
use crate::encoding::{le, lt, max, min, larger, less, smaller, ZERO};
use crate::units::{MetresPerSecond, Radians};

verus! {

/// The encoding of pi.
pub const PI: u64 = 0x4009_21FB_5444_2D18;

/// The encoding of pi / 2, the steepest elevation a mutation may reach.
pub const HALF_PI: u64 = 0x3FF9_21FB_5444_2D18;

/// The encoding of 0.1: the least speed, and the least elevation, a mutation
/// may reach.
pub const MUTATION_FLOOR: u64 = 0x3FB9_9999_9999_999A;

/// A speed that moves the ball.
pub open spec fn valid_speed(v: MetresPerSecond) -> bool {
    lt(ZERO, v.0)
}

/// An elevation strictly between the ground ahead and the ground behind.
pub open spec fn valid_angle(a: Radians) -> bool {
    lt(ZERO, a.0) && lt(a.0, PI)
}

/// Why a launch configuration was rejected.
#[derive(Clone, Copy, Debug, PartialEq, Eq, Structural)]
pub enum PlanError {
    /// The speed is not above zero.
    SpeedNotPositive,
    /// The elevation is not strictly between zero and pi.
    AngleOutOfRange,
}

/// One launch: the speed and elevation of the ball as it leaves the cannon.
#[derive(Clone, Copy, Debug, PartialEq, Eq, Structural)]
pub struct FiringPlan {
    pub velocity: MetresPerSecond,
    pub angle: Radians,
}

/// The speed a mutation yields from its draft (the parent's speed plus a draw
/// less one half): the draft, raised to the floor.
pub open spec fn mutated_speed(draft: MetresPerSecond) -> MetresPerSecond {
    MetresPerSecond(max(draft.0, MUTATION_FLOOR))
}

/// The elevation a mutation yields from its draft: the draft, raised to the
/// floor and then lowered to pi / 2.
pub open spec fn mutated_angle(draft: Radians) -> Radians {
    Radians(min(max(draft.0, MUTATION_FLOOR), HALF_PI))
}

impl FiringPlan {
    /// Both of the plan's values are valid.
    pub open spec fn wf(self) -> bool {
        valid_speed(self.velocity) && valid_angle(self.angle)
    }

    /// Builds a plan, rejecting a speed that is not positive and then an
    /// elevation outside (0, pi).
    pub fn new(velocity: MetresPerSecond, angle: Radians) -> (r: Result<FiringPlan, PlanError>)
        ensures
            !valid_speed(velocity) <==> r == Err::<FiringPlan, PlanError>(
                PlanError::SpeedNotPositive,
            ),
            valid_speed(velocity) && !valid_angle(angle) <==> r == Err::<FiringPlan, PlanError>(
                PlanError::AngleOutOfRange,
            ),
            valid_speed(velocity) && valid_angle(angle) <==> r == Ok::<FiringPlan, PlanError>(
                (FiringPlan { velocity, angle }),
            ),
            r matches Ok(p) ==> p.wf(),
    {
        if !less(ZERO, velocity.0) {
            Err(PlanError::SpeedNotPositive)
        } else if !(less(ZERO, angle.0) && less(angle.0, PI)) {
            Err(PlanError::AngleOutOfRange)
        } else {
            Ok(FiringPlan { velocity, angle })
        }
    }

    /// The plan a mutation yields from its draft speed and draft elevation:
    /// each is clamped into range first, so the plan is always valid.
    pub fn mutated(speed_draft: MetresPerSecond, angle_draft: Radians) -> (r: FiringPlan)
        ensures
            r.velocity == mutated_speed(speed_draft),
            r.angle == mutated_angle(angle_draft),
            r.wf(),
    {
        let velocity = MetresPerSecond(larger(speed_draft.0, MUTATION_FLOOR));
        let angle = Radians(smaller(larger(angle_draft.0, MUTATION_FLOOR), HALF_PI));
        proof {
            lemma_mutation_clamped(speed_draft, angle_draft);
        }
        FiringPlan { velocity, angle }
    }
}

/// Whatever the drafts, a mutated speed is at least 0.1 and a mutated
/// elevation lies in [0.1, pi / 2]; so the mutated plan is valid.
pub proof fn lemma_mutation_clamped(speed_draft: MetresPerSecond, angle_draft: Radians)
    ensures
        le(MUTATION_FLOOR, mutated_speed(speed_draft).0),
        le(MUTATION_FLOOR, mutated_angle(angle_draft).0),
        le(mutated_angle(angle_draft).0, HALF_PI),
        (FiringPlan {
            velocity: mutated_speed(speed_draft),
            angle: mutated_angle(angle_draft),
        }).wf(),
{
}

} // verus!
