//! A falling-block puzzle game engine: board and piece model, collision and
//! wall-kick rotation rules, the lock/clear/score/level pipeline, and the
//! recognizer that turns raw key and pointer samples into discrete intents.
//! Rendering, storage and the frame loop live outside this crate; each tick
//! the host passes in the elapsed time and raw input and reads the state back.

pub mod config;
pub mod dummy_board;
pub mod game;
pub mod input;
pub mod state;
pub mod tetromino;
mod random;
