//! Verified core of a vision-guided follower: the timing of the simulated
//! target and wind, the tick schedule of the simulator, the pixel geometry of
//! the synthetic camera frame, the cycle decisions of the state estimator and
//! the pages of the set-up tour.
//!
//! Everything here works on integers, booleans and text. Real-valued
//! quantities (poses, velocities, covariances) are integrated by the caller,
//! who follows the decisions that this crate hands out tick by tick.

pub mod geometry;
pub mod kalman_filter;
pub mod mock_printer_controller;
pub mod parrot_controller;
pub mod simulation;
pub mod ui;
pub mod utils;

pub use geometry::{GeometricPoint, ImagePoint, PointConverter};
pub use kalman_filter::{
    check_shapes, observation_layout, transition_layout, Coefficient, ConfigError, ConfigShapes,
    Cycle, KalmanFilter, Shape, OBSERVATION_DIM, STATE_DIM,
};
pub use mock_printer_controller::MockPrinterController;
pub use parrot_controller::{Climb, ParrotController, MAX_CLIMBS};
pub use simulation::movetactics::move_linear::MoveLinear;
pub use simulation::movetactics::stand_still::StandStill;
pub use simulation::movetactics::stand_turn::StandTurn;
pub use simulation::movetactics::walk::{MoveSquares, MoveStop, Walk};
pub use simulation::scene::{
    trees, Color, Marker, CROWN_RADIUS, HAT_RADIUS, PEAK_DISTANCE, TREE_COLUMNS, TREE_RADIUS,
    TREE_ROWS,
};
pub use simulation::traits::{Gust, Motion, MoveTactic, WindTactic};
pub use simulation::virtual_controller::{TickPlan, VirtualController};
pub use simulation::windtactics::constant_wind::ConstantWind;
pub use simulation::windtactics::cyclic_wind::{CyclicWind, PeriodicWind, RandomWind};
pub use simulation::windtactics::no_wind::NoWind;
pub use ui::model::{
    ControllerSetting, DefaultSetting, PersonSetting, StepMessage, Steps, TourMessage, WindSetting,
};
pub use ui::step::{Step, StepAction};
pub use utils::picture_funcs::{
    color_from_coordinates, get_color_from_strings, ColorError, Coordinate, LabColor,
};
