use drone_follow::{ConstantWind, Gust, NoWind, PeriodicWind, RandomWind, WindTactic};

fn run<W: WindTactic>(tactic: &mut W, ticks: usize) -> Vec<Gust> {
    let mut gusts = Vec::new();
    for _ in 0..ticks {
        gusts.push(tactic.get_wind());
    }
    gusts
}

const CALM: Gust = Gust { blowing: false, redraw: false };
const BLOW: Gust = Gust { blowing: true, redraw: false };

#[test]
fn no_wind_is_always_calm() {
    let mut wind = NoWind::new();
    assert_eq!(run(&mut wind, 5), vec![CALM; 5]);
}

#[test]
fn constant_wind_always_blows() {
    let mut wind = ConstantWind::new();
    assert_eq!(run(&mut wind, 5), vec![BLOW; 5]);
}

#[test]
fn periodic_wind_blows_then_rests() {
    let mut wind = PeriodicWind::new(2, 3);
    let gusts = run(&mut wind, 12);
    assert_eq!(
        gusts,
        vec![BLOW, BLOW, CALM, CALM, CALM, BLOW, BLOW, CALM, CALM, CALM, BLOW, BLOW]
    );
}

#[test]
fn periodic_wind_blows_on_the_active_ticks_of_each_cycle() {
    for (active, inactive) in [(1usize, 1usize), (3, 0), (0, 4), (80, 500)] {
        for start in 0..(active + inactive) {
            let mut wind = PeriodicWind::new(active, inactive);
            run(&mut wind, start);
            let cycle = run(&mut wind, active + inactive);
            assert_eq!(cycle.iter().filter(|g| g.blowing).count(), active);
            assert!(cycle.iter().all(|g| !g.redraw));
        }
    }
}

#[test]
fn periodic_wind_without_rest_always_blows() {
    let mut wind = PeriodicWind::new(3, 0);
    assert_eq!(run(&mut wind, 7), vec![BLOW; 7]);
}

#[test]
fn periodic_wind_of_no_ticks_is_calm() {
    let mut wind = PeriodicWind::new(0, 0);
    assert_eq!(run(&mut wind, 3), vec![CALM; 3]);
}

#[test]
fn random_wind_asks_for_a_direction_at_the_end_of_each_cycle() {
    let mut wind = RandomWind::new(2, 1);
    let gusts = run(&mut wind, 7);
    let last = Gust { blowing: false, redraw: true };
    assert_eq!(gusts, vec![BLOW, BLOW, last, BLOW, BLOW, last, BLOW]);
}

#[test]
fn random_wind_draws_once_per_cycle() {
    for (active, inactive) in [(1usize, 0usize), (2, 5), (150, 2000)] {
        for start in [0, 1, active, active + inactive - 1] {
            let mut wind = RandomWind::new(active, inactive);
            run(&mut wind, start);
            let cycle = run(&mut wind, active + inactive);
            assert_eq!(cycle.iter().filter(|g| g.redraw).count(), 1);
            assert_eq!(cycle.iter().filter(|g| g.blowing).count(), active);
        }
    }
}

#[test]
fn random_wind_of_no_ticks_never_blows() {
    let mut wind = RandomWind::new(0, 0);
    let gusts = run(&mut wind, 3);
    assert_eq!(gusts, vec![Gust { blowing: false, redraw: true }; 3]);
}
