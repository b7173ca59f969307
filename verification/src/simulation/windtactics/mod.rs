pub mod constant_wind;
pub mod cyclic_wind;
pub mod no_wind;
