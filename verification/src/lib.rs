//! SVG-to-raster rendering library: a configurable rendering-options model,
//! a handle registry giving each options object a checked lifetime, and a
//! pipeline that parses SVG text, rasterizes it at a caller-given scale and
//! encodes the pixels as PNG or JPEG.

pub mod engine;
pub mod errors;
pub mod modes;
pub mod options;
pub mod pixels;
pub mod registry;
pub mod render;
pub mod scale;
