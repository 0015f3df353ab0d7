//! A two-player, gravity-drop board game for a character-grid terminal:
//! the game state, the fitting of the board into a resizable viewport, and
//! the projection of the state into abstract drawing commands.

pub mod board;
pub mod cell;
pub mod input;
pub mod render;
pub mod session;
pub mod viewport;
