//! Helpers shared by the strategies and the engine.

pub mod decimal;
pub mod random;

pub use random::Random;
