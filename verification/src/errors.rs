//! Structured errors for every operation the host can invoke.
//!
//! Any failure is reported through one of these variants; no operation
//! terminates the process or returns a partially written buffer.

use vstd::prelude::*;

verus! {

/// The error taxonomy of the library.
///
/// `UnsupportedValue` never escapes an operation: an out-of-range
/// quality-mode code is silently ignored, so the variant exists only for
/// hosts that wish to name the condition.
#[derive(Debug, Clone)]
pub enum RenderError {
    /// A null or already destroyed handle was used.
    InvalidHandle,
    /// The document text is not structurally valid XML.
    Parse(String),
    /// The document parsed but could not be resolved into a scene.
    Build(String),
    /// The computed raster size has a zero or unrepresentable dimension.
    Size,
    /// The raster canvas could not be allocated.
    Allocation,
    /// An unexpected internal fault inside the pipeline.
    Internal,
    /// An out-of-range enum code; reserved, never raised.
    UnsupportedValue,
}

} // verus!
