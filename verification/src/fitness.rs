//! Strategies that score a specimen against the target: the lower the score,
//! the closer the two images.

pub mod absolute_distance;
pub mod fitness_function;
pub mod square_distance;

pub use absolute_distance::AbsoluteDistance;
pub use fitness_function::FitnessFunction;
pub use square_distance::SquareDistance;
