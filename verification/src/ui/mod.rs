pub mod model;
pub mod step;
