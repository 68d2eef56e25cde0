use vstd::prelude::*;

verus! {

/// The ways in which terrain generation and export can fail.
#[derive(Debug, Clone, Copy, PartialEq, Eq, Structural)]
pub enum GenError {
    /// A grid with a zero cell count was requested.
    InvalidDimensions,
    /// A grid coordinate or a mesh index lies outside its extent.
    OutOfBounds,
    /// Texture coordinates or normals are absent, or do not match the positions.
    MissingAttribute,
    /// A generator step was called out of order.
    InvalidSequence,
    /// Writing a mesh file or the scene description failed.
    IoFailure,
    /// A distribution was built with invalid parameters.
    SamplingFailure,
}

} // verus!
