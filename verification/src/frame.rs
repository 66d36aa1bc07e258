//! The frame buffer: a depth buffer and a character buffer of identical
//! dimensions, mutated in lock-step under a closest-wins depth test.

use crate::fixed::FP_ONE;
use crate::geom::{SCREEN_CELLS, SCREEN_HEIGHT, SCREEN_WIDTH};
use crate::points::Point2D;
use vstd::arithmetic::div_mod::{
    lemma_div_is_ordered, lemma_div_multiples_vanish, lemma_div_pos_is_pos,
};
use vstd::prelude::*;

verus! {

/// Linear index of a screen cell in spec code.
pub open spec fn lin_index(x: int, y: int) -> int {
    y * (SCREEN_WIDTH as int) + x
}

/// Linear position of the cell (x, y) in the row-major screen grid.
pub fn lin_pos(x: usize, y: usize) -> (r: usize)
    requires
        x < SCREEN_WIDTH,
        y < SCREEN_HEIGHT,
    ensures
        r == lin_index(x as int, y as int),
        r < SCREEN_CELLS,
{
    y * SCREEN_WIDTH + x
}

/// The depth buffer contents of a just-reset frame: no surface anywhere.
pub open spec fn blank_depth() -> Seq<i64> {
    Seq::new(SCREEN_CELLS as nat, |i: int| 0i64)
}

/// The character buffer contents of a just-reset frame: all blanks.
pub open spec fn blank_chars() -> Seq<char> {
    Seq::new(SCREEN_CELLS as nat, |i: int| ' ')
}

/// One depth-tested write to the pair of buffers: the cell is updated exactly
/// when the new inverse depth is strictly greater than the stored one.
pub open spec fn write_step(
    db: Seq<i64>,
    cb: Seq<char>,
    idx: int,
    d: i64,
    g: char,
) -> (Seq<i64>, Seq<char>) {
    if d > db[idx] {
        (db.update(idx, d), cb.update(idx, g))
    } else {
        (db, cb)
    }
}

/// Depth-test monotonicity: once a cell holds inverse depth `d`, a write with
/// inverse depth at most `d` changes neither buffer — ties keep the earlier
/// write.
pub proof fn lemma_depth_test_monotonic(db: Seq<i64>, cb: Seq<char>, idx: int, d: i64, g: char)
    requires
        0 <= idx < db.len(),
        d <= db[idx],
    ensures
        write_step(db, cb, idx, d, g) == (db, cb),
{
}

/// A write never lowers any cell's stored inverse depth: within one frame the
/// depth buffer only moves closer to the camera, so a cell that once took
/// inverse depth `d` holds at least `d` from then on.
pub proof fn lemma_depth_never_decreases(
    db: Seq<i64>,
    cb: Seq<char>,
    idx: int,
    j: int,
    d: i64,
    g: char,
)
    requires
        0 <= idx < db.len(),
        0 <= j < db.len(),
    ensures
        write_step(db, cb, idx, d, g).0[j] >= db[j],
{
}

/// Two writes of distinct inverse depths to one cell land in the same final
/// state in either order: the closer one wins, whichever is processed first.
pub proof fn lemma_write_order_independent(
    db: Seq<i64>,
    cb: Seq<char>,
    idx: int,
    d1: i64,
    g1: char,
    d2: i64,
    g2: char,
)
    requires
        0 <= idx < db.len(),
        0 <= idx < cb.len(),
        d1 != d2,
    ensures
        ({
            let first = write_step(db, cb, idx, d1, g1);
            let second = write_step(db, cb, idx, d2, g2);
            write_step(first.0, first.1, idx, d2, g2) == write_step(second.0, second.1, idx, d1, g1)
        }),
{
    let first = write_step(db, cb, idx, d1, g1);
    let second = write_step(db, cb, idx, d2, g2);
    let end1 = write_step(first.0, first.1, idx, d2, g2);
    let end2 = write_step(second.0, second.1, idx, d1, g1);
    assert(end1.0 =~= end2.0);
    assert(end1.1 =~= end2.1);
}

/// A depth buffer and a character buffer, one entry per screen cell, reset
/// together at the start of every frame and written together under the depth
/// test.
pub struct Frame {
    pub depth: Vec<i64>,
    pub chars: Vec<char>,
}

impl Frame {
    /// Both buffers span exactly the screen grid.
    pub open spec fn wf(self) -> bool {
        &&& self.depth@.len() == SCREEN_CELLS
        &&& self.chars@.len() == SCREEN_CELLS
    }

    /// A fresh frame: all depths zero, all glyphs blank.
    pub fn new() -> (f: Frame)
        ensures
            f.wf(),
            f.depth@ == blank_depth(),
            f.chars@ == blank_chars(),
    {
        let mut depth: Vec<i64> = Vec::new();
        let mut chars: Vec<char> = Vec::new();
        let mut i: usize = 0;
        while i < SCREEN_CELLS
            invariant
                i <= SCREEN_CELLS,
                depth@.len() == i,
                chars@.len() == i,
                forall|j: int| 0 <= j < i ==> depth@[j] == 0i64,
                forall|j: int| 0 <= j < i ==> chars@[j] == ' ',
            decreases SCREEN_CELLS - i,
        {
            depth.push(0);
            chars.push(' ');
            i += 1;
        }
        proof {
            assert(depth@ =~= blank_depth());
            assert(chars@ =~= blank_chars());
        }
        Frame { depth, chars }
    }

    /// Clear the frame: every depth back to zero ("no surface yet"), every
    /// glyph back to blank.
    pub fn reset(&mut self)
        requires
            old(self).wf(),
        ensures
            final(self).wf(),
            final(self).depth@ == blank_depth(),
            final(self).chars@ == blank_chars(),
    {
        let mut i: usize = 0;
        while i < SCREEN_CELLS
            invariant
                i <= SCREEN_CELLS,
                self.depth@.len() == SCREEN_CELLS,
                self.chars@.len() == SCREEN_CELLS,
                forall|j: int| 0 <= j < i ==> self.depth@[j] == 0i64,
                forall|j: int| 0 <= j < i ==> self.chars@[j] == ' ',
            decreases SCREEN_CELLS - i,
        {
            self.depth[i] = 0;
            self.chars[i] = ' ';
            i += 1;
        }
        proof {
            assert(self.depth@ =~= blank_depth());
            assert(self.chars@ =~= blank_chars());
        }
    }

    /// Depth-tested write: store the glyph and the inverse depth at (x, y)
    /// exactly when the new inverse depth beats the stored one.
    pub fn write(&mut self, x: usize, y: usize, d: i64, g: char)
        requires
            old(self).wf(),
            x < SCREEN_WIDTH,
            y < SCREEN_HEIGHT,
        ensures
            final(self).wf(),
            (final(self).depth@, final(self).chars@) == write_step(
                old(self).depth@,
                old(self).chars@,
                lin_index(x as int, y as int),
                d,
                g,
            ),
    {
        let idx = lin_pos(x, y);
        if d > self.depth[idx] {
            self.depth[idx] = d;
            self.chars[idx] = g;
        }
    }

    /// The inverse depth stored at (x, y).
    pub fn depth_at(&self, x: usize, y: usize) -> (d: i64)
        requires
            self.wf(),
            x < SCREEN_WIDTH,
            y < SCREEN_HEIGHT,
        ensures
            d == self.depth@[lin_index(x as int, y as int)],
    {
        let idx = lin_pos(x, y);
        self.depth[idx]
    }

    /// The glyph stored at (x, y).
    pub fn char_at(&self, x: usize, y: usize) -> (c: char)
        requires
            self.wf(),
            x < SCREEN_WIDTH,
            y < SCREEN_HEIGHT,
        ensures
            c == self.chars@[lin_index(x as int, y as int)],
    {
        let idx = lin_pos(x, y);
        self.chars[idx]
    }
}

/// The flat preview cell of one normalized coordinate along an axis of
/// `cells` cells: `((c + 1) / 2) * (cells - 1)`, truncated.
pub open spec fn preview_coord(c: int, cells: int) -> int {
    (c + FP_ONE) * (cells - 1) / (2 * (FP_ONE as int))
}

/// The character buffer after the first `n` points of a list have been
/// stamped onto it as a flat, depth-free preview.
pub open spec fn spec_preview(cb: Seq<char>, points: Seq<Point2D>, n: int) -> Seq<char>
    decreases n,
{
    if n <= 0 {
        cb
    } else {
        let prev = spec_preview(cb, points, n - 1);
        let p = points[n - 1];
        if p.valid() {
            prev.update(
                lin_index(
                    preview_coord(p.x as int, SCREEN_WIDTH as int),
                    preview_coord(p.y as int, SCREEN_HEIGHT as int),
                ),
                '*',
            )
        } else {
            prev
        }
    }
}

/// A preview coordinate of an in-range point lands on the axis.
proof fn lemma_preview_coord_range(c: int, cells: int)
    requires
        -FP_ONE <= c <= FP_ONE,
        1 <= cells,
    ensures
        0 <= preview_coord(c, cells) < cells,
{
    let num = (c + FP_ONE) * (cells - 1);
    let den = 2 * (FP_ONE as int);
    assert(0 <= num <= den * (cells - 1)) by (nonlinear_arith)
        requires
            -FP_ONE <= c <= FP_ONE,
            1 <= cells,
            num == (c + FP_ONE) * (cells - 1),
            den == 2 * (FP_ONE as int),
    ;
    lemma_div_pos_is_pos(num, den);
    lemma_div_is_ordered(num, den * (cells - 1), den);
    lemma_div_multiples_vanish(cells - 1, den);
}

/// Stamp each point of the list, in order, onto a flat character buffer: a
/// depth-free preview of the raw point cloud. Out-of-range points are
/// skipped.
pub fn fill_output_buffer_from_point_list(output: &mut Vec<char>, point_list: &Vec<Point2D>)
    requires
        old(output)@.len() == SCREEN_CELLS,
    ensures
        final(output)@ == spec_preview(old(output)@, point_list@, point_list@.len() as int),
{
    let ghost cb0 = output@;
    let mut i: usize = 0;
    while i < point_list.len()
        invariant
            i <= point_list@.len(),
            output@.len() == SCREEN_CELLS,
            output@ == spec_preview(cb0, point_list@, i as int),
        decreases point_list@.len() - i,
    {
        let p = point_list[i];
        if -FP_ONE <= p.x && p.x <= FP_ONE && -FP_ONE <= p.y && p.y <= FP_ONE {
            proof {
                lemma_preview_coord_range(p.x as int, SCREEN_WIDTH as int);
                lemma_preview_coord_range(p.y as int, SCREEN_HEIGHT as int);
            }
            let nx = ((((p.x + FP_ONE) as u64) * 79) / 20000) as usize;
            let ny = ((((p.y + FP_ONE) as u64) * 49) / 20000) as usize;
            let idx = lin_pos(nx, ny);
            output[idx] = '*';
        }
        i += 1;
    }
}

} // verus!
