//! Renders decoded raster images as ASCII art: the decisions of each stage of
//! the pipeline (grayscale normalization, resizing) and the quantization of a
//! grayscale buffer into a grid of shading characters.

pub mod error;
pub mod raster;
pub mod shading;
pub mod stages;

pub use error::ProcessingError;
pub use raster::GrayRaster;
pub use shading::grayscale_to_ascii;
pub use stages::{grayscale_step, scaled_size, GrayscaleStep};
