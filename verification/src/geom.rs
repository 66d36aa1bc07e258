//! The fixed geometry of the scene: screen size, torus radii, camera
//! distance, the derived projection scale, and the degenerate sweep angles.

use crate::fixed::FP_ONE;
use vstd::prelude::*;

verus! {

/// Width of the character grid, in cells.
pub const SCREEN_WIDTH: usize = 80;

/// Height of the character grid, in cells.
pub const SCREEN_HEIGHT: usize = 50;

/// Number of cells in one frame.
pub const SCREEN_CELLS: usize = SCREEN_WIDTH * SCREEN_HEIGHT;

/// Minor torus radius (1.0).
pub const R1_FP: i64 = 10000;

/// Major torus radius (2.0).
pub const R2_FP: i64 = 20000;

/// Camera distance (5.0): the z offset that keeps the surface in front of the
/// camera.
pub const K2_FP: i64 = 50000;

/// Screen width as a fixed-point scalar.
pub const SCREEN_WIDTH_FP: i64 = 800000;

/// Screen height as a fixed-point scalar.
pub const SCREEN_HEIGHT_FP: i64 = 500000;

/// Horizontal centre of the screen (width / 2).
pub const HALF_WIDTH_FP: i64 = 400000;

/// Vertical centre of the screen (height / 2).
pub const HALF_HEIGHT_FP: i64 = 250000;

/// Projection scale converting camera-space units to screen cells. Derived
/// from the other constants; see [`lemma_projection_scale`].
pub const K1_FP: i64 = 1142857;

/// Quadratic curvature (-1.1) that bows the flat point cloud into a dish.
pub const CURVATURE_FP: i64 = -11000;

/// Cosine of the cross-sectional sweep angle theta, fixed at zero here: the
/// general torus sweep collapses to a flat surface, but the terms stay in the
/// formulas under these names.
pub const COS_THETA_FP: i64 = FP_ONE;

/// Sine of the sweep angle theta (zero).
pub const SIN_THETA_FP: i64 = 0;

/// Cosine of the revolution sweep angle phi, fixed at zero here.
pub const COS_PHI_FP: i64 = FP_ONE;

/// Sine of the sweep angle phi (zero).
pub const SIN_PHI_FP: i64 = 0;

/// Per-tick increment of the first rotation phase (0.04 rad).
pub const A_STEP_FP: i64 = 400;

/// Per-tick increment of the second rotation phase (0.02 rad).
pub const B_STEP_FP: i64 = 200;

/// The projection scale is `screen_width * K2 * 6 / (7 * (R1 + R2))`,
/// truncated to the fixed-point grid.
pub proof fn lemma_projection_scale()
    ensures
        K1_FP == SCREEN_WIDTH_FP * K2_FP * 6 / ((R1_FP + R2_FP) * 7),
{
    vstd::arithmetic::div_mod::lemma_fundamental_div_mod_converse_div(
        240_000_000_000,
        210_000,
        1_142_857,
        30_000,
    );
}

} // verus!
