//! One player's turn of a falling-block match: the playfield, the timed state
//! machine that drives a piece through it, and the score that grows from it.

pub mod config;
pub mod game;
pub mod game_input;
pub mod geometry;
pub mod menu_input;
pub mod particles;
pub mod theme;
