//! A small text adventure: a fixed world of locations joined by one-way exits,
//! a player who carries items, and an interpreter from typed lines to moves.
pub mod text;
pub mod world;
pub mod landscape;
pub mod game;
pub mod command;
pub mod session;
pub mod laws;
