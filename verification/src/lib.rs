//! Core simulation of a two-paddle ball-bouncing game.
//!
//! The library holds the whole per-frame state transition: paddle movement,
//! ball integration, collision response, scoring, ball reset, and the
//! trajectory prediction that drives the optional automated opponent.
//! Rendering and input polling live outside the library; each frame the
//! caller hands in the held-key state and the current surface dimensions
//! as plain values.

pub mod geom;
pub mod predict;
pub mod game;
pub mod laws;
