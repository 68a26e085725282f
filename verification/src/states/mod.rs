//! The states of the game.

pub mod gaming;
