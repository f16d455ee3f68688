//! Canvas interaction types.

use vstd::prelude::*;

verus! {

/// Transform handle types for layer manipulation.
#[derive(Debug, Clone, Copy, PartialEq, Eq, Structural)]
pub enum TransformHandle {
    ScaleTopLeft,
    ScaleTopRight,
    ScaleBottomLeft,
    ScaleBottomRight,
    Rotate,
}

} // verus!
