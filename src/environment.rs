//! The parameters of a search, validated on construction.
use vstd::prelude::*;
use crate::encoding::{le, less, lt, ZERO};
use crate::units::{Metres, Seconds};

verus! {

/// Why a set of search parameters was rejected.
#[derive(Clone, Copy, Debug, PartialEq, Eq, Structural)]
pub enum EnvironmentError {
    /// The wall does not stand ahead of the cannon.
    WallDistanceNotPositive,
    /// The wall's height is below zero, or not a number.
    WallHeightNegative,
    /// The sampling step is not above zero.
    StepNotPositive,
    /// The population is empty.
    EmptyPopulation,
}

/// The wall, the sampling step, and the size and length of a search.
#[derive(Clone, Copy, Debug, PartialEq, Eq, Structural)]
pub struct Environment {
    pub wall_height: Metres,
    pub wall_distance: Metres,
    pub step: Seconds,
    pub seed: u64,
    pub pop_size: usize,
    pub generations: usize,
}

impl Environment {
    /// All parameters are usable.
    pub open spec fn wf(self) -> bool {
        &&& lt(ZERO, self.wall_distance.0)
        &&& le(ZERO, self.wall_height.0)
        &&& lt(ZERO, self.step.0)
        &&& self.pop_size > 0
    }

    /// Builds the parameters of a search. The checks are made in order: wall
    /// distance above zero, wall height at least zero, step above zero, and a
    /// population of at least one.
    pub fn new(
        wall_height: Metres,
        wall_distance: Metres,
        step: Seconds,
        seed: u64,
        pop_size: usize,
        generations: usize,
    ) -> (r: Result<Environment, EnvironmentError>)
        ensures
            r == if !lt(ZERO, wall_distance.0) {
                Err(EnvironmentError::WallDistanceNotPositive)
            } else if !le(ZERO, wall_height.0) {
                Err(EnvironmentError::WallHeightNegative)
            } else if !lt(ZERO, step.0) {
                Err(EnvironmentError::StepNotPositive)
            } else if pop_size == 0 {
                Err(EnvironmentError::EmptyPopulation)
            } else {
                Ok(Environment { wall_height, wall_distance, step, seed, pop_size, generations })
            },
            r matches Ok(e) ==> e.wf(),
    {
        if !wall_distance.is_positive() {
            Err(EnvironmentError::WallDistanceNotPositive)
        } else if !(crate::encoding::equal(wall_height.0, ZERO) || less(ZERO, wall_height.0)) {
            Err(EnvironmentError::WallHeightNegative)
        } else if !less(ZERO, step.0) {
            Err(EnvironmentError::StepNotPositive)
        } else if pop_size == 0 {
            Err(EnvironmentError::EmptyPopulation)
        } else {
            Ok(Environment { wall_height, wall_distance, step, seed, pop_size, generations })
        }
    }
}

} // verus!
