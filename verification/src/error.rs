//! The library's fault taxonomy.
//!
//! Configuration faults (a degenerate surface) are surfaced synchronously by
//! `render`, never swallowed into an empty mesh. The remaining variants name
//! the faults of the embedding graphics layer, which hands the raw findings
//! (a driver log, a failed location lookup) to this type.

use crate::shader::ShaderKind;
use vstd::prelude::*;

verus! {

/// A fault, either of the tessellation core (a degenerate surface) or
/// reported by the embedding graphics layer.
#[derive(Debug)]
pub enum Error {
    /// A shader failed to compile: the driver's log and the shader's kind.
    InvalidShader(String, ShaderKind),
    /// The shader program could not be created or linked: the driver's log.
    ShaderProgramCreation(String),
    /// Buffer creation failed.
    BufferCreation,
    /// No data location was found for the named attribute.
    NoDataLocation(String),
    /// A surface cannot be tessellated: its resolution is 0, or its
    /// generatrix has fewer than two points. Distinguishes the degenerate
    /// configuration from a valid empty mesh.
    DegenerateSurface,
}

} // verus!
