//! A verified core for a terminal snake game: grid geometry, the snake's
//! body and movement, collision rules, food placement and the speed ramp.

pub mod command;
pub mod direction;
pub mod game;
pub mod glyph;
pub mod point;
pub mod snake;
pub mod timing;
pub mod ui;
