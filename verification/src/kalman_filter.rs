use crate::geometry::GeometricPoint;
use vstd::prelude::*;

verus! {

/// Entries of the estimator's state: x, y, heading, and the velocity along x
/// and along y.
pub const STATE_DIM: usize = 5;

/// Entries of one observation: x, y and heading.
pub const OBSERVATION_DIM: usize = 3;

/// What the estimator does in one cycle.
#[derive(Clone, Copy, Debug, PartialEq, Eq, Structural)]
pub enum Cycle {
    /// The target was seen at (`x`, `y`): predict the state, then correct
    /// it with this position and the heading seen with it.
    Correct { x: i32, y: i32 },
    /// The target was not seen with both its position and its heading:
    /// leave the state as it is and scale its covariance by the uncertainty
    /// gain.
    Inflate,
}

/// An entry of the transition matrix.
#[derive(Clone, Copy, Debug, PartialEq, Eq, Structural)]
pub enum Coefficient {
    Zero,
    One,
    /// The velocity decay factor.
    Decay,
}

/// A matrix that has not the size that the estimator needs.
#[derive(Clone, Copy, Debug, PartialEq, Eq, Structural)]
pub enum ConfigError {
    ProcessNoise,
    MeasurementNoise,
    Observation,
    Transition,
    InitialMean,
    InitialCovariance,
}

/// The size of a matrix.
#[derive(Clone, Copy, Debug, PartialEq, Eq, Structural)]
pub struct Shape {
    pub rows: usize,
    pub cols: usize,
}

/// The sizes of the matrices and of the vector that configure an estimator.
#[derive(Clone, Copy, Debug, PartialEq, Eq, Structural)]
pub struct ConfigShapes {
    /// Process noise covariance.
    pub q: Shape,
    /// Measurement noise covariance.
    pub r: Shape,
    /// Observation matrix.
    pub h: Shape,
    /// Transition matrix.
    pub f: Shape,
    /// Entries of the initial mean.
    pub x0: usize,
    /// Initial covariance.
    pub p0: Shape,
}

/// The cycle that an observation asks for: a correction where position and
/// heading were both seen, growing doubt in every other case. A position
/// without a heading is no observation.
pub open spec fn cycle_for(point: Option<GeometricPoint>, heading_seen: bool) -> Cycle {
    if point.is_some() && heading_seen {
        Cycle::Correct { x: point.unwrap().x, y: point.unwrap().y }
    } else {
        Cycle::Inflate
    }
}

/// The entry of the transition matrix in `row` and `col`: each position
/// takes up its velocity, the heading carries over, and each velocity
/// carries over scaled by the decay factor.
pub open spec fn transition_coefficient(row: int, col: int) -> Coefficient {
    if row == col {
        if row >= 3 {
            Coefficient::Decay
        } else {
            Coefficient::One
        }
    } else if row < 2 && col == row + 3 {
        Coefficient::One
    } else {
        Coefficient::Zero
    }
}

/// Whether the observation matrix has a one in `row` and `col`, and not a
/// zero: the `row`-th entry of an observation is the `row`-th entry of the
/// state.
pub open spec fn observes(row: int, col: int) -> bool {
    row == col
}

/// The first size in `shapes` that is not what the estimator needs, in the
/// order process noise, measurement noise, observation matrix, transition
/// matrix, initial mean, initial covariance.
pub open spec fn first_mismatch(shapes: ConfigShapes) -> Option<ConfigError> {
    if shapes.q != (Shape { rows: STATE_DIM, cols: STATE_DIM }) {
        Some(ConfigError::ProcessNoise)
    } else if shapes.r != (Shape { rows: OBSERVATION_DIM, cols: OBSERVATION_DIM }) {
        Some(ConfigError::MeasurementNoise)
    } else if shapes.h != (Shape { rows: OBSERVATION_DIM, cols: STATE_DIM }) {
        Some(ConfigError::Observation)
    } else if shapes.f != (Shape { rows: STATE_DIM, cols: STATE_DIM }) {
        Some(ConfigError::Transition)
    } else if shapes.x0 != STATE_DIM {
        Some(ConfigError::InitialMean)
    } else if shapes.p0 != (Shape { rows: STATE_DIM, cols: STATE_DIM }) {
        Some(ConfigError::InitialCovariance)
    } else {
        None
    }
}

/// Accepts the sizes of a configuration, or names the first that is wrong.
pub fn check_shapes(shapes: &ConfigShapes) -> (r: Result<(), ConfigError>)
    ensures
        r.is_ok() <==> first_mismatch(*shapes).is_none(),
        r.is_err() ==> first_mismatch(*shapes) == Some(r.unwrap_err()),
{
    if shapes.q.rows != STATE_DIM || shapes.q.cols != STATE_DIM {
        Err(ConfigError::ProcessNoise)
    } else if shapes.r.rows != OBSERVATION_DIM || shapes.r.cols != OBSERVATION_DIM {
        Err(ConfigError::MeasurementNoise)
    } else if shapes.h.rows != OBSERVATION_DIM || shapes.h.cols != STATE_DIM {
        Err(ConfigError::Observation)
    } else if shapes.f.rows != STATE_DIM || shapes.f.cols != STATE_DIM {
        Err(ConfigError::Transition)
    } else if shapes.x0 != STATE_DIM {
        Err(ConfigError::InitialMean)
    } else if shapes.p0.rows != STATE_DIM || shapes.p0.cols != STATE_DIM {
        Err(ConfigError::InitialCovariance)
    } else {
        Ok(())
    }
}

/// The transition matrix, row by row.
pub fn transition_layout() -> (r: Vec<Coefficient>)
    ensures
        r@.len() == STATE_DIM * STATE_DIM,
        forall|row: int, col: int|
            0 <= row < STATE_DIM && 0 <= col < STATE_DIM ==> #[trigger] r@[row * 5 + col]
                == transition_coefficient(row, col),
{
    let mut r: Vec<Coefficient> = Vec::new();
    let mut row: usize = 0;
    while row < STATE_DIM
        invariant
            row <= STATE_DIM,
            r@.len() == row * STATE_DIM,
            forall|i: int, j: int|
                0 <= i < row && 0 <= j < STATE_DIM ==> #[trigger] r@[i * 5 + j]
                    == transition_coefficient(i, j),
        decreases STATE_DIM - row,
    {
        let mut col: usize = 0;
        while col < STATE_DIM
            invariant
                row < STATE_DIM,
                col <= STATE_DIM,
                r@.len() == row * STATE_DIM + col,
                forall|i: int, j: int|
                    0 <= i < row && 0 <= j < STATE_DIM ==> #[trigger] r@[i * 5 + j]
                        == transition_coefficient(i, j),
                forall|j: int|
                    0 <= j < col ==> #[trigger] r@[row * 5 + j] == transition_coefficient(
                        row as int,
                        j,
                    ),
            decreases STATE_DIM - col,
        {
            let c = if row == col {
                if row >= 3 {
                    Coefficient::Decay
                } else {
                    Coefficient::One
                }
            } else if row < 2 && col == row + 3 {
                Coefficient::One
            } else {
                Coefficient::Zero
            };
            r.push(c);
            col = col + 1;
        }
        row = row + 1;
    }
    r
}

/// The observation matrix, row by row: `true` stands for a one, `false` for
/// a zero.
pub fn observation_layout() -> (r: Vec<bool>)
    ensures
        r@.len() == OBSERVATION_DIM * STATE_DIM,
        forall|row: int, col: int|
            0 <= row < OBSERVATION_DIM && 0 <= col < STATE_DIM ==> #[trigger] r@[row * 5 + col]
                == observes(row, col),
{
    let mut r: Vec<bool> = Vec::new();
    let mut row: usize = 0;
    while row < OBSERVATION_DIM
        invariant
            row <= OBSERVATION_DIM,
            r@.len() == row * STATE_DIM,
            forall|i: int, j: int|
                0 <= i < row && 0 <= j < STATE_DIM ==> #[trigger] r@[i * 5 + j] == observes(i, j),
        decreases OBSERVATION_DIM - row,
    {
        let mut col: usize = 0;
        while col < STATE_DIM
            invariant
                row < OBSERVATION_DIM,
                col <= STATE_DIM,
                r@.len() == row * STATE_DIM + col,
                forall|i: int, j: int|
                    0 <= i < row && 0 <= j < STATE_DIM ==> #[trigger] r@[i * 5 + j] == observes(
                        i,
                        j,
                    ),
                forall|j: int| 0 <= j < col ==> #[trigger] r@[row * 5 + j] == observes(row as int, j),
            decreases STATE_DIM - col,
        {
            r.push(row == col);
            col = col + 1;
        }
        row = row + 1;
    }
    r
}

/// The estimator's record of where it believes the target to be, in whole
/// units of the observer's frame of reference. The state vector and its
/// covariance are the caller's, who runs each cycle as this record decides.
#[derive(Debug)]
pub struct KalmanFilter {
    point: Option<GeometricPoint>,
}

impl KalmanFilter {
    /// The position that the last correction gave, if there was one.
    pub closed spec fn estimate(&self) -> Option<GeometricPoint> {
        self.point
    }

    /// An estimator for a configuration whose matrices have the sizes
    /// `shapes`. It has not seen the target yet. A configuration of a wrong
    /// size is refused here, before the first cycle, with the first size
    /// that is wrong.
    pub fn new(shapes: &ConfigShapes) -> (r: Result<KalmanFilter, ConfigError>)
        ensures
            r.is_ok() <==> first_mismatch(*shapes).is_none(),
            r.is_err() ==> first_mismatch(*shapes) == Some(r.unwrap_err()),
            r.is_ok() ==> r.unwrap().estimate().is_none(),
    {
        match check_shapes(shapes) {
            Ok(()) => Ok(KalmanFilter { point: None }),
            Err(e) => Err(e),
        }
    }

    /// Decides the cycle for what the detector saw: `point` is the position
    /// it found, if any, and `heading_seen` says whether it found a heading.
    /// No observation changes the estimated position by itself.
    pub fn update_estimation(&self, point: Option<GeometricPoint>, heading_seen: bool) -> (r: Cycle)
        ensures
            r == cycle_for(point, heading_seen),
    {
        match point {
            Some(p) if heading_seen => Cycle::Correct { x: p.x, y: p.y },
            _ => Cycle::Inflate,
        }
    }

    /// Records the position that a correction gave.
    pub fn correct(&mut self, estimate: GeometricPoint)
        ensures
            final(self).estimate() == Some(estimate),
    {
        self.point = Some(estimate);
    }

    /// The position that the last correction gave; `None` as long as the
    /// target was never seen with both its position and its heading.
    pub fn get_estimated_position(&self) -> (r: Option<GeometricPoint>)
        ensures
            r == self.estimate(),
    {
        self.point
    }
}

} // verus!
