//! When the best specimen is saved, and under which name.

pub mod image_writer;
pub mod save_condition;

pub use image_writer::ImageWriter;
pub use save_condition::SaveCondition;
