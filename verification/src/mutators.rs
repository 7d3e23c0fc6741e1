//! Strategies that change a specimen at random.

pub mod circle_mutator;
pub mod mutator;
pub mod rectangle_mutator;

pub use circle_mutator::{CircleMutator, RandomCircle};
pub use mutator::Mutator;
pub use rectangle_mutator::{RandomRectangle, RectangleMutator};
