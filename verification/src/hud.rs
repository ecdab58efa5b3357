//! The always-on display of the game.
pub mod combat;
pub mod health;
pub mod layers;
pub mod meteor;
pub mod perf;
pub mod ranged;
pub mod vignette;
