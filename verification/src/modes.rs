//! Quality-mode enums and their integer codes.
//!
//! The host selects each mode by a small integer code. The code sets are
//! closed: a code outside the set decodes to `None`, and a setter given
//! such a code leaves the previous mode unchanged instead of failing, so
//! newer hosts may send codes an older library does not know.

use vstd::prelude::*;

verus! {

/// How shapes are rasterized: speed, crisp edges, or geometric precision.
#[derive(Clone, Copy, Debug, PartialEq, Eq, Structural)]
pub enum ShapeMode {
    OptimizeSpeed,
    CrispEdges,
    GeometricPrecision,
}

/// How text is rasterized: speed, legibility, or geometric precision.
#[derive(Clone, Copy, Debug, PartialEq, Eq, Structural)]
pub enum TextMode {
    OptimizeSpeed,
    OptimizeLegibility,
    GeometricPrecision,
}

/// How embedded images are resampled: quality or speed.
#[derive(Clone, Copy, Debug, PartialEq, Eq, Structural)]
pub enum ImageMode {
    OptimizeQuality,
    OptimizeSpeed,
}

/// The shape-rendering mode a host code selects, if any.
pub open spec fn shape_mode_of(code: i32) -> Option<ShapeMode> {
    if code == 0 {
        Some(ShapeMode::OptimizeSpeed)
    } else if code == 1 {
        Some(ShapeMode::CrispEdges)
    } else if code == 2 {
        Some(ShapeMode::GeometricPrecision)
    } else {
        None
    }
}

/// The text-rendering mode a host code selects, if any.
pub open spec fn text_mode_of(code: i32) -> Option<TextMode> {
    if code == 0 {
        Some(TextMode::OptimizeSpeed)
    } else if code == 1 {
        Some(TextMode::OptimizeLegibility)
    } else if code == 2 {
        Some(TextMode::GeometricPrecision)
    } else {
        None
    }
}

/// The image-rendering mode a host code selects, if any.
pub open spec fn image_mode_of(code: i32) -> Option<ImageMode> {
    if code == 0 {
        Some(ImageMode::OptimizeQuality)
    } else if code == 1 {
        Some(ImageMode::OptimizeSpeed)
    } else {
        None
    }
}

/// Decodes a shape-rendering code.
pub fn decode_shape_mode(code: i32) -> (r: Option<ShapeMode>)
    ensures
        r == shape_mode_of(code),
{
    if code == 0 {
        Some(ShapeMode::OptimizeSpeed)
    } else if code == 1 {
        Some(ShapeMode::CrispEdges)
    } else if code == 2 {
        Some(ShapeMode::GeometricPrecision)
    } else {
        None
    }
}

/// Decodes a text-rendering code.
pub fn decode_text_mode(code: i32) -> (r: Option<TextMode>)
    ensures
        r == text_mode_of(code),
{
    if code == 0 {
        Some(TextMode::OptimizeSpeed)
    } else if code == 1 {
        Some(TextMode::OptimizeLegibility)
    } else if code == 2 {
        Some(TextMode::GeometricPrecision)
    } else {
        None
    }
}

/// Decodes an image-rendering code.
pub fn decode_image_mode(code: i32) -> (r: Option<ImageMode>)
    ensures
        r == image_mode_of(code),
{
    if code == 0 {
        Some(ImageMode::OptimizeQuality)
    } else if code == 1 {
        Some(ImageMode::OptimizeSpeed)
    } else {
        None
    }
}

} // verus!
