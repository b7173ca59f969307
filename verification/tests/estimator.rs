use drone_follow::{
    check_shapes, observation_layout, transition_layout, Coefficient, ConfigError, ConfigShapes,
    Cycle, GeometricPoint, Gust, KalmanFilter, Motion, NoWind, Shape, StandStill,
    VirtualController, OBSERVATION_DIM, STATE_DIM,
};
use linearkalman::{filter_step, KalmanFilter as Model, KalmanState};
use rulinalg::matrix::{BaseMatrix, Matrix};
use rulinalg::vector::Vector;

fn diagonal(values: &[f64]) -> Matrix<f64> {
    let n = values.len();
    let mut data = vec![0.0; n * n];
    for (i, v) in values.iter().enumerate() {
        data[i * n + i] = *v;
    }
    Matrix::new(n, n, data)
}

fn model(sigma0: f64, est_v_loss: f64) -> (Model, KalmanState) {
    let f: Vec<f64> = transition_layout()
        .iter()
        .map(|c| match c {
            Coefficient::Zero => 0.0,
            Coefficient::One => 1.0,
            Coefficient::Decay => est_v_loss,
        })
        .collect();
    let h: Vec<f64> = observation_layout().iter().map(|one| if *one { 1.0 } else { 0.0 }).collect();
    let model = Model {
        q: diagonal(&[1.0, 1.0, 2.0, 1.0, 1.0]),
        r: diagonal(&[10.0, 10.0, 0.001]),
        h: Matrix::new(OBSERVATION_DIM, STATE_DIM, h),
        f: Matrix::new(STATE_DIM, STATE_DIM, f),
        x0: Vector::new(vec![0.0; 5]),
        p0: diagonal(&[1.0; 5]),
    };
    let state = KalmanState { x: Vector::new(vec![0.0; 5]), p: diagonal(&[sigma0; 5]) };
    (model, state)
}

fn trace(p: &Matrix<f64>) -> f64 {
    (0..p.rows()).map(|i| p[[i, i]]).sum()
}

struct Estimator {
    record: KalmanFilter,
    model: Model,
    state: KalmanState,
    heading: f64,
    sigma_gain: f64,
}

fn shapes_of(model: &Model, state: &KalmanState) -> ConfigShapes {
    ConfigShapes {
        q: Shape { rows: model.q.rows(), cols: model.q.cols() },
        r: Shape { rows: model.r.rows(), cols: model.r.cols() },
        h: Shape { rows: model.h.rows(), cols: model.h.cols() },
        f: Shape { rows: model.f.rows(), cols: model.f.cols() },
        x0: state.x.size(),
        p0: Shape { rows: state.p.rows(), cols: state.p.cols() },
    }
}

impl Estimator {
    fn new(sigma0: f64, sigma_gain: f64, est_v_loss: f64) -> Estimator {
        let (model, state) = model(sigma0, est_v_loss);
        let record = KalmanFilter::new(&shapes_of(&model, &state)).unwrap();
        Estimator { record, model, state, heading: 0.0, sigma_gain }
    }

    fn step(&mut self, point: Option<GeometricPoint>, heading: Option<f64>) -> Cycle {
        let cycle = self.record.update_estimation(point, heading.is_some());
        match cycle {
            Cycle::Correct { x, y } => {
                let z = Vector::new(vec![x as f64, y as f64, heading.unwrap()]);
                let (next, _) = filter_step(&self.model, &self.state, &z);
                self.record.correct(GeometricPoint::new(next.x[0] as i32, next.x[1] as i32));
                self.heading = next.x[2];
                self.state = next;
            }
            Cycle::Inflate => {
                self.state.p = &self.state.p * self.sigma_gain;
            }
        }
        cycle
    }
}

fn record() -> KalmanFilter {
    KalmanFilter::new(&good_shapes()).unwrap()
}

#[test]
fn observation_with_heading_asks_for_a_correction() {
    let filter = record();
    let cycle = filter.update_estimation(Some(GeometricPoint::new(30, 45)), true);
    assert_eq!(cycle, Cycle::Correct { x: 30, y: 45 });
}

#[test]
fn missing_observation_asks_for_more_doubt() {
    let filter = record();
    assert_eq!(filter.update_estimation(None, false), Cycle::Inflate);
    assert_eq!(filter.update_estimation(None, true), Cycle::Inflate);
}

#[test]
fn position_without_heading_is_no_observation() {
    let filter = record();
    assert_eq!(filter.update_estimation(Some(GeometricPoint::new(1, 2)), false), Cycle::Inflate);
}

#[test]
fn position_without_heading_only_widens_the_doubt() {
    let mut estimator = Estimator::new(2.0, 1.5, 1.0);
    estimator.step(Some(GeometricPoint::new(30, 45)), Some(0.0));
    let mean = estimator.state.x.clone();
    let found = estimator.record.get_estimated_position();
    let doubt = trace(&estimator.state.p);
    assert_eq!(estimator.step(Some(GeometricPoint::new(90, -90)), None), Cycle::Inflate);
    assert_eq!(estimator.state.x, mean);
    assert_eq!(estimator.record.get_estimated_position(), found);
    assert!((trace(&estimator.state.p) - 1.5 * doubt).abs() < 1e-9);
}

#[test]
fn estimate_is_unknown_until_the_first_correction() {
    let mut filter = record();
    assert_eq!(filter.get_estimated_position(), None);
    filter.update_estimation(Some(GeometricPoint::new(30, 45)), true);
    filter.update_estimation(None, false);
    filter.update_estimation(Some(GeometricPoint::new(30, 45)), false);
    assert_eq!(filter.get_estimated_position(), None);
    filter.correct(GeometricPoint::new(7, -3));
    assert_eq!(filter.get_estimated_position(), Some(GeometricPoint::new(7, -3)));
    filter.update_estimation(None, false);
    assert_eq!(filter.get_estimated_position(), Some(GeometricPoint::new(7, -3)));
}

#[test]
fn transition_matrix_adds_velocity_and_decays_it() {
    let (d, i, o) = (Coefficient::Decay, Coefficient::One, Coefficient::Zero);
    assert_eq!(
        transition_layout(),
        vec![
            i, o, o, i, o, //
            o, i, o, o, i, //
            o, o, i, o, o, //
            o, o, o, d, o, //
            o, o, o, o, d,
        ]
    );
}

#[test]
fn observation_matrix_selects_position_and_heading() {
    let t = true;
    let f = false;
    assert_eq!(
        observation_layout(),
        vec![
            t, f, f, f, f, //
            f, t, f, f, f, //
            f, f, t, f, f,
        ]
    );
    assert_eq!(STATE_DIM, 5);
    assert_eq!(OBSERVATION_DIM, 3);
}

fn good_shapes() -> ConfigShapes {
    ConfigShapes {
        q: Shape { rows: 5, cols: 5 },
        r: Shape { rows: 3, cols: 3 },
        h: Shape { rows: 3, cols: 5 },
        f: Shape { rows: 5, cols: 5 },
        x0: 5,
        p0: Shape { rows: 5, cols: 5 },
    }
}

#[test]
fn fitting_sizes_are_accepted() {
    assert_eq!(check_shapes(&good_shapes()), Ok(()));
    let (model, state) = model(1.0, 1.0);
    assert_eq!(shapes_of(&model, &state), good_shapes());
    let filter = KalmanFilter::new(&shapes_of(&model, &state)).unwrap();
    assert_eq!(filter.get_estimated_position(), None);
}

#[test]
fn estimator_of_a_wrong_size_is_refused_at_once() {
    let (mut model, state) = model(1.0, 1.0);
    model.r = diagonal(&[10.0, 10.0]);
    assert_eq!(
        KalmanFilter::new(&shapes_of(&model, &state)).unwrap_err(),
        ConfigError::MeasurementNoise
    );
    let mut shapes = good_shapes();
    shapes.x0 = 4;
    shapes.p0 = Shape { rows: 4, cols: 4 };
    assert_eq!(KalmanFilter::new(&shapes).unwrap_err(), ConfigError::InitialMean);
    for k in 0..6 {
        let mut shapes = good_shapes();
        let (wrong, expected) = match k {
            0 => (&mut shapes.q, ConfigError::ProcessNoise),
            1 => (&mut shapes.r, ConfigError::MeasurementNoise),
            2 => (&mut shapes.h, ConfigError::Observation),
            3 => (&mut shapes.f, ConfigError::Transition),
            _ => (&mut shapes.p0, ConfigError::InitialCovariance),
        };
        wrong.rows += 1;
        assert_eq!(KalmanFilter::new(&shapes).unwrap_err(), expected);
    }
}

#[test]
fn each_wrong_size_is_named() {
    let mut shapes = good_shapes();
    shapes.q.cols = 4;
    assert_eq!(check_shapes(&shapes), Err(ConfigError::ProcessNoise));
    let mut shapes = good_shapes();
    shapes.r.rows = 5;
    assert_eq!(check_shapes(&shapes), Err(ConfigError::MeasurementNoise));
    let mut shapes = good_shapes();
    shapes.h = Shape { rows: 5, cols: 3 };
    assert_eq!(check_shapes(&shapes), Err(ConfigError::Observation));
    let mut shapes = good_shapes();
    shapes.f.rows = 0;
    assert_eq!(check_shapes(&shapes), Err(ConfigError::Transition));
    let mut shapes = good_shapes();
    shapes.x0 = 3;
    assert_eq!(check_shapes(&shapes), Err(ConfigError::InitialMean));
    let mut shapes = good_shapes();
    shapes.p0.cols = 6;
    assert_eq!(check_shapes(&shapes), Err(ConfigError::InitialCovariance));
}

#[test]
fn first_wrong_size_wins() {
    let mut shapes = good_shapes();
    shapes.p0.cols = 6;
    shapes.h.rows = 2;
    shapes.x0 = 0;
    assert_eq!(check_shapes(&shapes), Err(ConfigError::Observation));
}

#[test]
fn doubt_grows_with_each_unseen_cycle() {
    let gain = 1.1;
    let mut estimator = Estimator::new(2.0, gain, 1.0);
    let start = trace(&estimator.state.p);
    assert!((start - 10.0).abs() < 1e-12);
    let mut last = start;
    for k in 1..=20 {
        assert_eq!(estimator.step(None, None), Cycle::Inflate);
        let now = trace(&estimator.state.p);
        assert!(now > last);
        assert!((now - start * gain.powi(k)).abs() < 1e-9 * now);
        last = now;
    }
    assert_eq!(estimator.state.x, Vector::new(vec![0.0; 5]));
    assert_eq!(estimator.record.get_estimated_position(), None);
}

#[test]
fn gain_of_one_leaves_the_doubt_alone() {
    let mut estimator = Estimator::new(1.0, 1.0, 1.0);
    for _ in 0..5 {
        estimator.step(None, None);
    }
    assert_eq!(trace(&estimator.state.p), 5.0);
}

fn watch_a_still_target(sigma0: f64) -> Estimator {
    let mut estimator = Estimator::new(sigma0, 1.1, 1.0);
    let noise = [0, 1, -1, 0, 1, 0, -1, 1, 0, -1];
    for cycle in 0..60 {
        let dx = noise[cycle % noise.len()];
        let dy = noise[(cycle + 3) % noise.len()];
        let seen = GeometricPoint::new(-120 + dx, 80 + dy);
        assert_eq!(estimator.step(Some(seen), Some(0.5)), Cycle::Correct { x: seen.x, y: seen.y });
    }
    estimator
}

#[test]
fn steady_observations_draw_the_estimate_to_the_truth() {
    for sigma0 in [1.0, 100.0] {
        let estimator = watch_a_still_target(sigma0);
        assert!((estimator.state.x[0] + 120.0).abs() <= 1.0);
        assert!((estimator.state.x[1] - 80.0).abs() <= 1.0);
        assert!((estimator.heading - 0.5).abs() <= 0.01);
        let found = estimator.record.get_estimated_position().unwrap();
        assert!((found.x + 120).abs() <= 1 && (found.y - 80).abs() <= 1);
    }
}

#[test]
fn doubt_settles_wherever_it_starts() {
    let narrow = watch_a_still_target(1.0);
    let wide = watch_a_still_target(100.0);
    for i in 0..5 {
        let settled = wide.state.p[[i, i]];
        assert!((narrow.state.p[[i, i]] - settled).abs() < 1e-6);
        // From a wide start every entry of the diagonal has shrunk.
        assert!(settled < 100.0);
    }
    // The heading is measured finely, so its doubt shrinks from any start;
    // the doubt of the position settles above a start of 1.
    assert!(narrow.state.p[[2, 2]] < 1.0);
    assert!(narrow.state.p[[0, 0]] > 1.0);
}

#[test]
fn still_target_is_found_within_ten_cycles() {
    let mut sim = VirtualController::new(0, StandStill::new(), NoWind::new());
    let mut estimator = Estimator::new(1.0, 1.1, 1.0);
    let mut observer = (0.0f64, 0.0f64, 0.0f64);
    let mut target = (30.0f64, 45.0f64, 0.0f64);
    let command = (0.0f64, 0.0f64, 0.0f64);
    let mut velocity = (0.0f64, 0.0f64, 0.0f64);
    let speed = 20.0;
    for _ in 0..10 {
        velocity = (
            (velocity.0 + command.0) / 2.0,
            (velocity.1 + command.1) / 2.0,
            (velocity.2 + command.2) / 2.0,
        );
        for plan in sim.advance(0) {
            assert_eq!(plan.gust, Gust { blowing: false, redraw: false });
            assert_eq!(plan.motion, Motion::Hold);
            observer = (
                observer.0 + speed * velocity.0,
                observer.1 + speed * velocity.1,
                observer.2 + velocity.2,
            );
            target = match plan.motion {
                Motion::Hold => target,
                _ => unreachable!(),
            };
        }
        assert_eq!(observer, (0.0, 0.0, 0.0));
        assert_eq!(target, (30.0, 45.0, 0.0));
        let seen = GeometricPoint::new((target.0 - observer.0) as i32, (target.1 - observer.1) as i32);
        estimator.step(Some(seen), Some(target.2 - observer.2));
    }
    println!("{:?}", estimator.state.x);
    assert!((estimator.state.x[0] - 30.0).abs() <= 1.0);
    assert!((estimator.state.x[1] - 45.0).abs() <= 1.0);
    assert!(estimator.state.x[3].abs() <= 1.0);
    assert!(estimator.state.x[4].abs() <= 1.0);
    let found = estimator.record.get_estimated_position().unwrap();
    assert!((found.x - 30).abs() <= 1);
    assert!((found.y - 45).abs() <= 1);
}
