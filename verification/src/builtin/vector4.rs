//! The axes of a four-dimensional vector with floating-point coordinates.

use vstd::prelude::*;

verus! {

/// Enumerates the axes in a `Vector4`.
#[derive(Copy, Clone, Debug, Eq, Ord, PartialEq, PartialOrd, Structural)]
pub enum Vector4Axis {
    /// The X axis.
    X,
    /// The Y axis.
    Y,
    /// The Z axis.
    Z,
    /// The W axis.
    W,
}

} // verus!
