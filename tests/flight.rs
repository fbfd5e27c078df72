use cannon::trajectory::{evaluate, Flight, Sample, Trajectory};
use cannon::units::{Coordinates, Fitness, Metres, Seconds};
use std::f64::consts::PI;

const G: f64 = 9.81;

fn f(bits: u64) -> f64 {
    f64::from_bits(bits)
}

fn s(t: f64) -> Seconds {
    Seconds(t.to_bits())
}

fn m(x: f64) -> Metres {
    Metres(x.to_bits())
}

fn point(x: f64, y: f64) -> Coordinates {
    Coordinates { x: m(x), y: m(y) }
}

fn fly(speed: f64, angle: f64, wall_distance: f64, wall_height: f64, step: f64) -> (bool, f64, Trajectory) {
    let (c, sn) = (angle.cos(), angle.sin());
    let pos = |t: f64| (speed * t * c, speed * t * sn - 0.5 * G * t * t);
    let t_wall = wall_distance / (speed * c);
    let (_, y_wall) = pos(t_wall);
    let clears = 0.0 <= y_wall && y_wall < wall_height;
    let mut flight = Flight::launch(m(y_wall), m(wall_height), s(t_wall));
    let mut t = 0.0f64;
    loop {
        let next = t + step;
        if !flight.wants_sample(s(next)) {
            return (clears, t_wall, flight.finish(s(next)));
        }
        t = next;
        let (x, y) = pos(t);
        flight.record(s(t), point(x, y));
    }
}

fn check_ordered(traj: &Trajectory) {
    let smp = traj.samples();
    assert!(!smp.is_empty());
    assert!(f(smp[0].time.0) > 0.0);
    for w in smp.windows(2) {
        assert!(f(w[0].time.0) < f(w[1].time.0));
    }
}

#[test]
fn wall_clearance_stops_at_the_wall() {
    let (clears, t_wall, traj) = fly(10.0, PI / 4.0, 10.0, 25.0, 0.01);
    assert!(clears);
    assert!(traj.clears());
    assert_eq!(traj.wall_time(), s(t_wall));
    assert!((t_wall - 1.4142).abs() < 1.0e-3);
    check_ordered(&traj);
    let smp = traj.samples();
    assert_eq!(smp.len(), 141);
    for x in smp.iter() {
        assert!(f(x.time.0) <= t_wall);
        assert!(f(x.at.x.0) <= 10.0);
    }
    let last = smp[smp.len() - 1];
    assert!((f(last.at.x.0) - 9.9702).abs() < 1.0e-3);
    assert!((f(last.at.y.0) - 0.2186).abs() < 1.0e-3);
    let fit = f(evaluate(&traj).0);
    assert!(fit <= 10.0 && fit > 10.0 - 0.01 * 10.0);
}

#[test]
fn wall_strike_flies_the_full_arc() {
    let (clears, _, traj) = fly(5.0, PI / 6.0, 30.0, 1.0, 0.01);
    assert!(!clears);
    assert!(!traj.clears());
    check_ordered(&traj);
    let smp = traj.samples();
    let last = smp[smp.len() - 1];
    assert!(f(last.at.y.0) <= 0.0);
    for x in &smp[..smp.len() - 1] {
        assert!(f(x.at.y.0) > 0.0);
    }
    assert_eq!(smp.len(), 51);
    let (_, _, farther) = fly(5.0, PI / 6.0, 50.0, 1.0, 0.01);
    assert_eq!(farther.samples(), traj.samples());
    let (_, _, taller) = fly(5.0, PI / 6.0, 30.0, 0.5, 0.01);
    assert_eq!(taller.samples(), traj.samples());
}

#[test]
fn wall_exactly_at_ground_level_is_cleared() {
    let mut flight = Flight::launch(m(0.0), m(1.0), s(2.0));
    assert!(flight.wants_sample(s(1.0)));
    flight.record(s(1.0), point(1.0, -5.0));
    // a ball that clears keeps going until the wall, whatever its height
    assert!(flight.wants_sample(s(2.0)));
    flight.record(s(2.0), point(2.0, -6.0));
    assert!(!flight.wants_sample(s(3.0)));
    let traj = flight.finish(s(3.0));
    assert!(traj.clears());
    assert_eq!(traj.samples().len(), 2);
}

#[test]
fn cleared_flight_takes_no_sample_past_the_wall() {
    let mut flight = Flight::launch(m(0.5), m(1.0), s(1.0));
    assert!(flight.wants_sample(s(0.9)));
    flight.record(s(0.9), point(0.9, 0.4));
    assert!(!flight.wants_sample(s(1.2)));
    assert!(flight.wants_sample(s(1.0)));
    let traj = flight.finish(s(1.2));
    assert_eq!(traj.samples().len(), 1);
    assert_eq!(evaluate(&traj), Fitness(0.9f64.to_bits()));
}

#[test]
fn wall_top_is_not_cleared() {
    let mut flight = Flight::launch(m(1.0), m(1.0), s(2.0));
    assert!(flight.wants_sample(s(0.5)));
    flight.record(s(0.5), point(0.5, 0.0));
    assert!(!flight.wants_sample(s(1.0)));
    assert!(!flight.finish(s(1.0)).clears());
}

#[test]
fn at_least_one_sample_is_taken() {
    // the ball clears a wall it reaches at once: one sample all the same
    let (clears, t_wall, traj) = fly(10.0, 0.2, 1.0e-9, 25.0, 0.01);
    assert!(clears);
    assert!(t_wall < 0.01);
    assert_eq!(traj.samples().len(), 1);
    let mut flight = Flight::launch(m(-1.0), m(1.0), s(1.0));
    assert!(flight.wants_sample(s(0.01)));
    flight.record(s(0.01), point(0.1, -0.001));
    assert!(!flight.wants_sample(s(0.02)));
    assert_eq!(flight.finish(s(0.02)).samples().len(), 1);
}

#[test]
fn fitness_is_the_last_horizontal_position() {
    let mut flight = Flight::launch(m(-3.0), m(1.0), s(9.0));
    flight.record(s(0.5), point(2.0, 4.0));
    flight.record(s(1.0), point(4.5, 3.0));
    flight.record(s(1.5), point(7.3, 0.0));
    assert!(!flight.wants_sample(s(2.0)));
    let traj = flight.finish(s(2.0));
    assert_eq!(traj.distance(), m(7.3));
    assert_eq!(evaluate(&traj), Fitness(7.3f64.to_bits()));

    let mut short = Flight::launch(m(-3.0), m(1.0), s(9.0));
    short.record(s(0.5), point(7.3, 0.0));
    assert_eq!(evaluate(&short.finish(s(1.0))), Fitness(7.3f64.to_bits()));
}

#[test]
fn samples_keep_their_order_and_values() {
    let mut flight = Flight::launch(m(-3.0), m(1.0), s(9.0));
    flight.record(s(0.5), point(2.0, 4.0));
    flight.record(s(1.0), point(4.0, -1.0));
    let traj = flight.finish(s(1.5));
    assert_eq!(
        traj.samples(),
        &vec![
            Sample { time: s(0.5), at: point(2.0, 4.0) },
            Sample { time: s(1.0), at: point(4.0, -1.0) },
        ]
    );
}
