//! Viewport-dependent inputs of the fixed perspective camera.
//!
//! The camera itself never changes: a vertical field of view of two radians,
//! a near plane a tenth of a unit away, a far plane ten units away, and a
//! translation of one and a half units back along the Z axis. The only inputs
//! that vary at run time are the window dimensions, whose ratio is the
//! projection's aspect ratio. This type records those dimensions exactly; the
//! backend builds the floating-point matrix from them and from the fixed
//! camera constants.

use vstd::prelude::*;

verus! {

/// The varying inputs of the view-projection matrix: the window size.
///
/// Two values of this type denote the same matrix exactly when they are
/// equal, so a resize to a genuinely different window size always yields a
/// different projection.
#[derive(Clone, Copy, Debug, PartialEq, Eq, Structural)]
pub struct ViewProjection {
    pub width: u32,
    pub height: u32,
}

impl ViewProjection {
    /// Recompute the projection inputs for a window of the given size.
    pub fn compute(width: u32, height: u32) -> (v: ViewProjection)
        ensures
            v == (ViewProjection { width, height }),
    {
        ViewProjection { width, height }
    }
}

/// Recomputing the projection for a different window size yields a different
/// projection: the computed value is determined by, and only by, the window
/// dimensions.
pub proof fn lemma_resize_changes_projection(a: ViewProjection, b: ViewProjection)
    requires
        a.width != b.width || a.height != b.height,
    ensures
        a != b,
{
}

} // verus!
