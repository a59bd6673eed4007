//! Turns raster images into ASCII art and wraps the art in a self-scaling
//! HTML viewer.

pub mod quantize;
pub mod raster;
pub mod text;
pub mod converter;
pub mod viewer;
pub mod presets;
pub mod laws;
