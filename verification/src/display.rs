//! When the best specimen is shown on screen, and when the window asks for
//! the run to end.

pub mod display_condition;
pub mod window;

pub use display_condition::DisplayCondition;
pub use window::{ExitWatch, Polled};
