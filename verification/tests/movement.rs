use drone_follow::{Motion, MoveLinear, MoveSquares, MoveStop, MoveTactic, StandStill, StandTurn};

fn run<M: MoveTactic>(tactic: &mut M, ticks: usize) -> Vec<Motion> {
    let mut motions = Vec::new();
    for _ in 0..ticks {
        motions.push(tactic.execute_move());
    }
    motions
}

fn count(motions: &[Motion], which: Motion) -> usize {
    motions.iter().filter(|m| **m == which).count()
}

#[test]
fn square_patrol_moves_forward_then_turns() {
    let mut patrol = MoveSquares::new(3);
    assert_eq!(patrol.switch_time(), 3);
    let motions = run(&mut patrol, 6);
    assert_eq!(
        motions,
        vec![
            Motion::Forward,
            Motion::Forward,
            Motion::Forward,
            Motion::Turn,
            Motion::Turn,
            Motion::Turn
        ]
    );
}

#[test]
fn square_patrol_resets_at_twice_the_switch_time() {
    let mut patrol = MoveSquares::new(2);
    let motions = run(&mut patrol, 9);
    assert_eq!(
        motions,
        vec![
            Motion::Forward,
            Motion::Forward,
            Motion::Turn,
            Motion::Turn,
            Motion::Forward,
            Motion::Forward,
            Motion::Turn,
            Motion::Turn,
            Motion::Forward
        ]
    );
}

#[test]
fn square_patrol_phases_are_equally_long_from_any_start() {
    for switch_time in [1u32, 2, 5, 40] {
        for start in 0..(2 * switch_time as usize) {
            let mut patrol = MoveSquares::new(switch_time);
            run(&mut patrol, start);
            let cycle = run(&mut patrol, 2 * switch_time as usize);
            assert_eq!(count(&cycle, Motion::Forward), switch_time as usize);
            assert_eq!(count(&cycle, Motion::Turn), switch_time as usize);
            let again = run(&mut patrol, 2 * switch_time as usize);
            assert_eq!(cycle, again);
        }
    }
}

#[test]
fn square_patrol_turns_a_quarter_per_cycle() {
    let switch_time = 8u32;
    let mut patrol = MoveSquares::new(switch_time);
    let start = 0.25f64;
    let mut heading = start;
    for motion in run(&mut patrol, 2 * switch_time as usize) {
        if motion == Motion::Turn {
            heading -= (std::f64::consts::PI / 2.0) / switch_time as f64;
        }
    }
    assert!((heading - (start - std::f64::consts::PI / 2.0)).abs() < 1e-9);
}

#[test]
fn square_patrol_of_no_ticks_only_turns() {
    let mut patrol = MoveSquares::new(0);
    let motions = run(&mut patrol, 4);
    assert_eq!(motions, vec![Motion::Turn; 4]);
}

#[test]
fn square_patrol_takes_the_longest_phase() {
    let mut patrol = MoveSquares::new(u32::MAX / 2);
    assert_eq!(run(&mut patrol, 3), vec![Motion::Forward; 3]);
}

#[test]
fn stop_and_turn_walks_then_stands() {
    let mut walk = MoveStop::new(2);
    assert_eq!(walk.switch_time(), 2);
    let motions = run(&mut walk, 5);
    assert_eq!(
        motions,
        vec![Motion::Forward, Motion::Forward, Motion::Hold, Motion::Hold, Motion::Forward]
    );
}

#[test]
fn stop_and_turn_keeps_its_heading() {
    let mut walk = MoveStop::new(7);
    let motions = run(&mut walk, 100);
    assert_eq!(count(&motions, Motion::Turn), 0);
    assert_eq!(count(&motions, Motion::Drift), 0);
    assert_eq!(count(&motions, Motion::Forward) + count(&motions, Motion::Hold), 100);
}

#[test]
fn stationary_target_holds() {
    let mut still = StandStill::new();
    assert_eq!(run(&mut still, 10), vec![Motion::Hold; 10]);
}

#[test]
fn linear_target_drifts() {
    let mut linear = MoveLinear::new();
    assert_eq!(run(&mut linear, 10), vec![Motion::Drift; 10]);
}

#[test]
fn turning_target_turns() {
    let mut turning = StandTurn::new();
    assert_eq!(run(&mut turning, 10), vec![Motion::Turn; 10]);
}
