use cannon::environment::{Environment, EnvironmentError};
use cannon::units::{Metres, Seconds};

fn env(height: f64, distance: f64, step: f64, pop: usize) -> Result<Environment, EnvironmentError> {
    Environment::new(
        Metres(height.to_bits()),
        Metres(distance.to_bits()),
        Seconds(step.to_bits()),
        7,
        pop,
        30,
    )
}

#[test]
fn usable_parameters_are_kept() {
    let e = env(25.0, 10.0, 0.01, 25).unwrap();
    assert_eq!(e.wall_height, Metres(25.0f64.to_bits()));
    assert_eq!(e.wall_distance, Metres(10.0f64.to_bits()));
    assert_eq!(e.step, Seconds(0.01f64.to_bits()));
    assert_eq!((e.seed, e.pop_size, e.generations), (7, 25, 30));
    assert!(env(0.0, 10.0, 0.01, 1).is_ok());
    assert!(env(-0.0, 10.0, 0.01, 1).is_ok());
}

#[test]
fn wall_must_stand_ahead() {
    assert_eq!(env(25.0, 0.0, 0.01, 25), Err(EnvironmentError::WallDistanceNotPositive));
    assert_eq!(env(25.0, -3.0, 0.01, 25), Err(EnvironmentError::WallDistanceNotPositive));
    assert_eq!(env(-1.0, f64::NAN, 0.0, 0), Err(EnvironmentError::WallDistanceNotPositive));
}

#[test]
fn wall_height_must_not_be_negative() {
    assert_eq!(env(-1.0, 10.0, 0.01, 25), Err(EnvironmentError::WallHeightNegative));
    assert_eq!(env(f64::NAN, 10.0, 0.0, 0), Err(EnvironmentError::WallHeightNegative));
}

#[test]
fn step_must_be_positive() {
    assert_eq!(env(25.0, 10.0, 0.0, 25), Err(EnvironmentError::StepNotPositive));
    assert_eq!(env(25.0, 10.0, -0.01, 0), Err(EnvironmentError::StepNotPositive));
}

#[test]
fn population_must_not_be_empty() {
    assert_eq!(env(25.0, 10.0, 0.01, 0), Err(EnvironmentError::EmptyPopulation));
}
