//! The raster data the engine works on.

pub mod image;
pub mod pixel;

pub use image::Image;
pub use pixel::Pixel;
