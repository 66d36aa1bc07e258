//! One lit point of the source image, in normalized device coordinates.

use crate::fixed::FP_ONE;
use vstd::prelude::*;

verus! {

/// A point of the source image, both coordinates fixed-point values in
/// [-1.0, 1.0]. The image's y axis grows downward; the engine negates it.
#[derive(Clone, Copy, PartialEq, Eq, Structural, Debug)]
pub struct Point2D {
    pub x: i64,
    pub y: i64,
}

impl Point2D {
    /// Both coordinates lie in the normalized range.
    pub open spec fn valid(self) -> bool {
        &&& -FP_ONE <= self.x <= FP_ONE
        &&& -FP_ONE <= self.y <= FP_ONE
    }
}

} // verus!
