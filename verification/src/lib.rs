//! Core simulation of a small arcade game: a player dodges falling hazards
//! and collects falling bonuses inside a fixed rectangular play area, while
//! the game tracks lives, score and a terminal game-over signal.
//!
//! All coordinates, sizes and speeds are integers (one unit corresponds to a
//! screen unit of the rendering host), and time is measured in milliseconds,
//! so every rule of the game is stated and proved exactly.

pub mod background;
pub mod boundary;
pub mod geometry;
pub mod objects;
pub mod player;
pub mod rng;
pub mod seqs;
pub mod world;
