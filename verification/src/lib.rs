//! Client-side rules and turn logic of the DreamBreaker board game.
pub mod auth;
pub mod board;
pub mod client;
pub mod clock;
pub mod display;
pub mod laws;
pub mod model;
pub mod rules;
pub mod text;
