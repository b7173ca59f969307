pub mod cycle;
pub mod movetactics;
pub mod scene;
pub mod traits;
pub mod virtual_controller;
pub mod windtactics;
