//! Strategies that breed a new specimen from two surviving ones.

pub mod arithmetic_average_crossover;
pub mod crossover_function;
pub mod equal_halfs_crossover;
pub mod left_or_right_clone_crossover;

pub use arithmetic_average_crossover::ArithmeticAverageCrossover;
pub use crossover_function::CrossoverFunction;
pub use equal_halfs_crossover::EqualHalfsCrossover;
pub use left_or_right_clone_crossover::LeftOrRightCloneCrossover;
