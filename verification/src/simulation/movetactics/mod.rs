pub mod move_linear;
pub mod stand_still;
pub mod stand_turn;
pub mod walk;
