//! Evolutionary approximation of a raster image: a population of candidate
//! images is mutated, scored against a target, truncated to its best members
//! and bred back to full size, generation after generation.

pub mod arg_parser;
mod color_mode;
pub mod crossover;
pub mod display;
pub mod environment;
pub mod environment_builder;
pub mod error;
pub mod fitness;
pub mod fs;
pub mod generation_loop;
pub mod job_context;
pub mod models;
pub mod mutators;
pub mod names;
pub mod population;
pub mod util;

pub use color_mode::ColorMode;
pub use display::DisplayCondition;
pub use environment::Environment;
pub use environment_builder::{EnvironmentBuilder, PathKind, Settings};
pub use error::{ConfigurationError, WorkerFailure};
pub use fs::{ImageWriter, SaveCondition};
pub use models::{Image, Pixel};
