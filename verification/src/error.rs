use vstd::prelude::*;

verus! {

/// Why a shape could not be built.
#[derive(Clone, Copy, Debug, PartialEq, Eq, Structural)]
pub enum ShapeError {
    /// A length, radius, width or height is not positive.
    InvalidDimension,
    /// The sides make no shape: three sides that break the strict triangle
    /// inequality, a side of zero or no angle left between two sides, or a
    /// regular polygon of fewer than three sides.
    InvalidGeometry,
    /// The angle between the two sides of a side-angle-side construction is
    /// π or more, or its cosine is no fraction at all.
    InvalidAngle,
}

} // verus!
