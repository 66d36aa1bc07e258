//! The projection engine: rotate each point of the cloud, bow it into a dish,
//! project it to a screen cell and write it to the frame under the depth test.

use crate::fixed::{fp_div_pos, fp_mul, fp_mul_spec, lemma_fp_mul_bound, FP_ONE};
use crate::frame::{blank_chars, blank_depth, lin_index, write_step, Frame};
use crate::geom::{
    COS_PHI_FP, COS_THETA_FP, CURVATURE_FP, HALF_HEIGHT_FP, HALF_WIDTH_FP, K1_FP, K2_FP,
    SCREEN_HEIGHT, SCREEN_WIDTH, SIN_PHI_FP, SIN_THETA_FP,
};
use crate::points::Point2D;
use crate::shader::{glyph_for_luminance, glyph_spec};
use vstd::prelude::*;

verus! {

/// The frame's trigonometric inputs: sine and cosine of the two rotation
/// phases, as fixed-point values, computed once per frame and hoisted out of
/// the per-point loop.
#[derive(Clone, Copy, PartialEq, Eq, Structural, Debug)]
pub struct Trig {
    pub cos_a: i64,
    pub sin_a: i64,
    pub cos_b: i64,
    pub sin_b: i64,
}

impl Trig {
    /// Sines and cosines lie in [-1.0, 1.0].
    pub open spec fn wf(self) -> bool {
        &&& -FP_ONE <= self.cos_a <= FP_ONE
        &&& -FP_ONE <= self.sin_a <= FP_ONE
        &&& -FP_ONE <= self.cos_b <= FP_ONE
        &&& -FP_ONE <= self.sin_b <= FP_ONE
    }
}

/// The rotated x coordinate of a point; `px`, `py` are the point's
/// coordinates with y already flipped upward.
pub open spec fn spec_rot_x(px: int, py: int, t: Trig) -> int {
    fp_mul_spec(
        px,
        fp_mul_spec(t.cos_b as int, COS_PHI_FP as int) + fp_mul_spec(
            fp_mul_spec(t.sin_a as int, t.sin_b as int),
            SIN_PHI_FP as int,
        ),
    ) - fp_mul_spec(fp_mul_spec(py, t.cos_a as int), t.sin_b as int)
}

/// The rotated y coordinate of a point.
pub open spec fn spec_rot_y(px: int, py: int, t: Trig) -> int {
    fp_mul_spec(
        px,
        fp_mul_spec(t.sin_b as int, COS_PHI_FP as int) - fp_mul_spec(
            fp_mul_spec(t.sin_a as int, t.cos_b as int),
            SIN_PHI_FP as int,
        ),
    ) + fp_mul_spec(fp_mul_spec(py, t.cos_a as int), t.cos_b as int)
}

/// The depth of a point: the camera distance, the rotated z term, and the
/// quadratic curvature that bows the flat cloud into a dish.
pub open spec fn spec_depth_z(px: int, py: int, t: Trig) -> int {
    K2_FP + fp_mul_spec(fp_mul_spec(t.cos_a as int, px), SIN_PHI_FP as int) + fp_mul_spec(
        py,
        t.sin_a as int,
    ) + fp_mul_spec(fp_mul_spec(px, px) + fp_mul_spec(py, py), CURVATURE_FP as int)
}

/// The directional-lighting luminance of the frame. With both sweep angles
/// fixed at zero it depends on the rotation phases alone, not on the point.
pub open spec fn spec_luminance(t: Trig) -> int {
    fp_mul_spec(fp_mul_spec(COS_PHI_FP as int, COS_THETA_FP as int), t.sin_b as int)
        - fp_mul_spec(fp_mul_spec(t.cos_a as int, COS_THETA_FP as int), SIN_PHI_FP as int)
        - fp_mul_spec(t.sin_a as int, SIN_THETA_FP as int)
        + fp_mul_spec(
        t.cos_b as int,
        fp_mul_spec(t.cos_a as int, SIN_THETA_FP as int) - fp_mul_spec(
            COS_THETA_FP as int,
            fp_mul_spec(t.sin_a as int, SIN_PHI_FP as int),
        ),
    )
}

/// Where one point lands: its screen cell, inverse depth and glyph, or
/// nothing if the point sits at or behind the camera plane or projects off
/// the screen (negative coordinates included).
pub open spec fn spec_project(p: Point2D, t: Trig) -> Option<(int, int, i64, char)> {
    let px = p.x as int;
    let py = -(p.y as int);
    let z3 = spec_depth_z(px, py, t);
    if z3 <= 0 {
        None
    } else {
        let ooz = (FP_ONE as int) * (FP_ONE as int) / z3;
        let xf = HALF_WIDTH_FP + fp_mul_spec(fp_mul_spec(K1_FP as int, ooz), spec_rot_x(px, py, t));
        let yf = HALF_HEIGHT_FP - fp_mul_spec(
            fp_mul_spec(K1_FP as int, ooz),
            spec_rot_y(px, py, t),
        );
        if 0 <= xf && 0 <= yf && xf / (FP_ONE as int) < SCREEN_WIDTH as int && yf / (
        FP_ONE as int) < SCREEN_HEIGHT as int {
            Some(
                (
                    xf / (FP_ONE as int),
                    yf / (FP_ONE as int),
                    ooz as i64,
                    glyph_spec(spec_luminance(t)),
                ),
            )
        } else {
            None
        }
    }
}

/// Project one point, computing exactly what [`spec_project`] states.
pub fn project_point(p: Point2D, t: &Trig) -> (r: Option<(usize, usize, i64, char)>)
    requires
        p.valid(),
        t.wf(),
    ensures
        match r {
            Some((x, y, d, g)) => {
                &&& spec_project(p, *t) == Some((x as int, y as int, d, g))
                &&& x < SCREEN_WIDTH
                &&& y < SCREEN_HEIGHT
            },
            None => spec_project(p, *t) is None,
        },
{
    let px: i64 = p.x;
    let py: i64 = -p.y;

    // Rotated x.
    let rxf1 = fp_mul(t.cos_b, COS_PHI_FP);
    let rxf2a = fp_mul(t.sin_a, t.sin_b);
    proof {
        lemma_fp_mul_bound(t.cos_b as int, COS_PHI_FP as int, 10000, 10000);
        lemma_fp_mul_bound(t.sin_a as int, t.sin_b as int, 10000, 10000);
    }
    let rxf2 = fp_mul(rxf2a, SIN_PHI_FP);
    proof {
        lemma_fp_mul_bound(rxf2a as int, SIN_PHI_FP as int, 10000, 10000);
    }
    let rxf = rxf1 + rxf2;
    let x3a = fp_mul(px, rxf);
    let x3b1 = fp_mul(py, t.cos_a);
    proof {
        lemma_fp_mul_bound(px as int, rxf as int, 10000, 20000);
        lemma_fp_mul_bound(py as int, t.cos_a as int, 10000, 10000);
    }
    let x3b = fp_mul(x3b1, t.sin_b);
    proof {
        lemma_fp_mul_bound(x3b1 as int, t.sin_b as int, 10000, 10000);
    }
    let x3 = x3a - x3b;

    // Rotated y.
    let ryf1 = fp_mul(t.sin_b, COS_PHI_FP);
    let ryf2a = fp_mul(t.sin_a, t.cos_b);
    proof {
        lemma_fp_mul_bound(t.sin_b as int, COS_PHI_FP as int, 10000, 10000);
        lemma_fp_mul_bound(t.sin_a as int, t.cos_b as int, 10000, 10000);
    }
    let ryf2 = fp_mul(ryf2a, SIN_PHI_FP);
    proof {
        lemma_fp_mul_bound(ryf2a as int, SIN_PHI_FP as int, 10000, 10000);
    }
    let ryf = ryf1 - ryf2;
    let y3a = fp_mul(px, ryf);
    let y3b = fp_mul(x3b1, t.cos_b);
    proof {
        lemma_fp_mul_bound(px as int, ryf as int, 10000, 20000);
        lemma_fp_mul_bound(x3b1 as int, t.cos_b as int, 10000, 10000);
    }
    let y3 = y3a + y3b;

    // Depth.
    let za1 = fp_mul(t.cos_a, px);
    proof {
        lemma_fp_mul_bound(t.cos_a as int, px as int, 10000, 10000);
    }
    let za = fp_mul(za1, SIN_PHI_FP);
    let zb = fp_mul(py, t.sin_a);
    let sq1 = fp_mul(px, px);
    let sq2 = fp_mul(py, py);
    proof {
        lemma_fp_mul_bound(za1 as int, SIN_PHI_FP as int, 10000, 10000);
        lemma_fp_mul_bound(py as int, t.sin_a as int, 10000, 10000);
        lemma_fp_mul_bound(px as int, px as int, 10000, 10000);
        lemma_fp_mul_bound(py as int, py as int, 10000, 10000);
    }
    let sq = sq1 + sq2;
    let zc = fp_mul(sq, CURVATURE_FP);
    proof {
        lemma_fp_mul_bound(sq as int, CURVATURE_FP as int, 20000, 11000);
    }
    let z3 = K2_FP + za + zb + zc;

    if z3 <= 0 {
        return None;
    }
    let ooz = fp_div_pos(FP_ONE * FP_ONE, z3);

    // Luminance.
    let lt1a = fp_mul(COS_PHI_FP, COS_THETA_FP);
    proof {
        lemma_fp_mul_bound(COS_PHI_FP as int, COS_THETA_FP as int, 10000, 10000);
    }
    let lt1 = fp_mul(lt1a, t.sin_b);
    let lt2a = fp_mul(t.cos_a, COS_THETA_FP);
    proof {
        lemma_fp_mul_bound(lt1a as int, t.sin_b as int, 10000, 10000);
        lemma_fp_mul_bound(t.cos_a as int, COS_THETA_FP as int, 10000, 10000);
    }
    let lt2 = fp_mul(lt2a, SIN_PHI_FP);
    let lt3 = fp_mul(t.sin_a, SIN_THETA_FP);
    let lt4a = fp_mul(t.cos_a, SIN_THETA_FP);
    let lt4b = fp_mul(t.sin_a, SIN_PHI_FP);
    proof {
        lemma_fp_mul_bound(lt2a as int, SIN_PHI_FP as int, 10000, 10000);
        lemma_fp_mul_bound(t.sin_a as int, SIN_THETA_FP as int, 10000, 10000);
        lemma_fp_mul_bound(t.cos_a as int, SIN_THETA_FP as int, 10000, 10000);
        lemma_fp_mul_bound(t.sin_a as int, SIN_PHI_FP as int, 10000, 10000);
    }
    let lt4c = fp_mul(COS_THETA_FP, lt4b);
    proof {
        lemma_fp_mul_bound(COS_THETA_FP as int, lt4b as int, 10000, 10000);
    }
    let lt4 = fp_mul(t.cos_b, lt4a - lt4c);
    proof {
        lemma_fp_mul_bound(t.cos_b as int, (lt4a - lt4c) as int, 10000, 20000);
    }
    let lum = lt1 - lt2 - lt3 + lt4;
    let g = glyph_for_luminance(lum);

    // Perspective projection to screen cells.
    let k1z = fp_mul(K1_FP, ooz);
    proof {
        lemma_fp_mul_bound(K1_FP as int, ooz as int, 1142857, 100000000);
    }
    let xq = fp_mul(k1z, x3);
    let yq = fp_mul(k1z, y3);
    proof {
        lemma_fp_mul_bound(k1z as int, x3 as int, 11428570000, 30000);
        lemma_fp_mul_bound(k1z as int, y3 as int, 11428570000, 30000);
    }
    let xf = HALF_WIDTH_FP + xq;
    let yf = HALF_HEIGHT_FP - yq;
    if xf < 0 || yf < 0 {
        return None;
    }
    let xc = fp_div_pos(xf, FP_ONE);
    let yc = fp_div_pos(yf, FP_ONE);
    if xc < SCREEN_WIDTH as i64 && yc < SCREEN_HEIGHT as i64 {
        Some((xc as usize, yc as usize, ooz, g))
    } else {
        None
    }
}

/// The frame contents after the first `n` points have been processed onto a
/// just-reset frame.
pub open spec fn spec_render(points: Seq<Point2D>, t: Trig, n: int) -> (Seq<i64>, Seq<char>)
    decreases n,
{
    if n <= 0 {
        (blank_depth(), blank_chars())
    } else {
        let prev = spec_render(points, t, n - 1);
        match spec_project(points[n - 1], t) {
            None => prev,
            Some((x, y, d, g)) => write_step(prev.0, prev.1, lin_index(x, y), d, g),
        }
    }
}

/// With no points, a frame stays exactly as `reset` leaves it: all glyphs
/// blank, all inverse depths zero.
pub proof fn lemma_render_no_points(t: Trig)
    ensures
        spec_render(Seq::empty(), t, 0) == (blank_depth(), blank_chars()),
{
}

/// Render one frame: reset the buffers, then project every point in order
/// under the depth test.
pub fn render_frame(frame: &mut Frame, points: &Vec<Point2D>, t: &Trig)
    requires
        old(frame).wf(),
        t.wf(),
        forall|i: int| 0 <= i < points@.len() ==> (#[trigger] points@[i]).valid(),
    ensures
        final(frame).wf(),
        (final(frame).depth@, final(frame).chars@) == spec_render(
            points@,
            *t,
            points@.len() as int,
        ),
{
    frame.reset();
    let mut i: usize = 0;
    while i < points.len()
        invariant
            i <= points@.len(),
            frame.wf(),
            t.wf(),
            forall|k: int| 0 <= k < points@.len() ==> (#[trigger] points@[k]).valid(),
            (frame.depth@, frame.chars@) == spec_render(points@, *t, i as int),
        decreases points@.len() - i,
    {
        let p = points[i];
        match project_point(p, t) {
            None => {
                proof {
                    assert(spec_render(points@, *t, i + 1) == spec_render(points@, *t, i as int));
                }
            },
            Some((x, y, d, g)) => {
                frame.write(x, y, d, g);
            },
        }
        i += 1;
    }
}

} // verus!
