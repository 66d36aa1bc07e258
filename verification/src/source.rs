//! The point source: sample a decoded image every other row and column, keep
//! the pure-black pixels as normalized points, and append the four corner and
//! center sentinels that pin the extent.

use crate::fixed::{div_trunc, lemma_div_trunc_bound, FP_ONE};
use crate::points::Point2D;
use vstd::arithmetic::div_mod::lemma_div_multiples_vanish;
use vstd::prelude::*;

verus! {

#[verifier::external_type_specification]
#[verifier::external_body]
pub struct ExDynamicImage(image::DynamicImage);

/// The width and height that `image::GenericImageView::dimensions` reports
/// for a decoded image.
pub uninterp spec fn img_dims(img: image::DynamicImage) -> (u32, u32);

/// The RGBA channels that `image::GenericImageView::get_pixel` reports at an
/// in-bounds position of a decoded image.
pub uninterp spec fn img_pixel(img: image::DynamicImage, x: u32, y: u32) -> (u8, u8, u8, u8);

/// Relies on `image::GenericImageView::dimensions` for `DynamicImage`: it
/// returns the image's width and height in pixels.
#[verifier::external_body]
fn image_dims(img: &image::DynamicImage) -> (r: (u32, u32))
    ensures
        r == img_dims(*img),
{
    image::GenericImageView::dimensions(img)
}

/// Relies on `image::GenericImageView::get_pixel` for `DynamicImage`: it
/// returns the RGBA channels of the pixel at (x, y). It panics outside the
/// image, which the bounds required here rule out.
#[verifier::external_body]
fn image_pixel_rgba(img: &image::DynamicImage, x: u32, y: u32) -> (r: (u8, u8, u8, u8))
    requires
        x < img_dims(*img).0,
        y < img_dims(*img).1,
    ensures
        r == img_pixel(*img, x, y),
{
    let p = image::GenericImageView::get_pixel(img, x, y);
    (p.0[0], p.0[1], p.0[2], p.0[3])
}

/// Whether a pixel is "ink": pure black and fully opaque.
pub open spec fn ink_at(img: image::DynamicImage, x: u32, y: u32) -> bool {
    img_pixel(img, x, y) == (0u8, 0u8, 0u8, 255u8)
}

/// A pixel position normalized to [-1.0, 1.0]: `((v - dim/2) * 2) / dim`,
/// carried out on the fixed-point grid as `(2v - dim) * FP_ONE / dim`,
/// truncated toward zero.
pub open spec fn spec_norm(v: int, dim: int) -> int {
    div_trunc((2 * v - dim) * (FP_ONE as int), dim)
}

/// An in-range pixel position normalizes into the normalized range.
pub proof fn lemma_norm_range(v: int, dim: int)
    requires
        0 <= v < dim,
    ensures
        -FP_ONE <= spec_norm(v, dim) <= FP_ONE,
{
    lemma_div_trunc_bound((2 * v - dim) * (FP_ONE as int), dim, dim * (FP_ONE as int));
    lemma_div_multiples_vanish(FP_ONE as int, dim);
}

/// How many positions the every-other-pixel sampling visits along one axis.
pub open spec fn sample_count(dim: u32) -> int {
    (dim as int + 1) / 2
}

/// The points that one sampled row contributes, from sample index `i` on.
pub open spec fn spec_row_points(img: image::DynamicImage, y: u32, i: int) -> Seq<Point2D>
    decreases sample_count(img_dims(img).0) - i,
{
    let dims = img_dims(img);
    if i < 0 || i >= sample_count(dims.0) {
        Seq::empty()
    } else {
        let rest = spec_row_points(img, y, i + 1);
        if ink_at(img, (2 * i) as u32, y) {
            seq![
                Point2D {
                    x: spec_norm(2 * i, dims.0 as int) as i64,
                    y: spec_norm(y as int, dims.1 as int) as i64,
                },
            ] + rest
        } else {
            rest
        }
    }
}

/// The points that the sampled grid contributes, from sampled row `j` on.
pub open spec fn spec_grid_points(img: image::DynamicImage, j: int) -> Seq<Point2D>
    decreases sample_count(img_dims(img).1) - j,
{
    if j < 0 || j >= sample_count(img_dims(img).1) {
        Seq::empty()
    } else {
        spec_row_points(img, (2 * j) as u32, 0) + spec_grid_points(img, j + 1)
    }
}

/// The sentinel points: the four image corners and the center, appended after
/// the sampled points to stabilize the rendered extent.
pub open spec fn spec_sentinels() -> Seq<Point2D> {
    seq![
        Point2D { x: (-FP_ONE) as i64, y: (-FP_ONE) as i64 },
        Point2D { x: (-FP_ONE) as i64, y: FP_ONE },
        Point2D { x: FP_ONE, y: (-FP_ONE) as i64 },
        Point2D { x: FP_ONE, y: FP_ONE },
        Point2D { x: 0i64, y: 0i64 },
    ]
}

/// Everything the point source emits for an image, in order.
pub open spec fn spec_point_source(img: image::DynamicImage) -> Seq<Point2D> {
    spec_grid_points(img, 0) + spec_sentinels()
}

/// Every point of a sampled row is in the normalized range.
proof fn lemma_row_points_valid(img: image::DynamicImage, y: u32, i: int)
    requires
        y < img_dims(img).1,
    ensures
        forall|k: int|
            0 <= k < spec_row_points(img, y, i).len() ==> (#[trigger] spec_row_points(
                img,
                y,
                i,
            )[k]).valid(),
    decreases sample_count(img_dims(img).0) - i,
{
    let dims = img_dims(img);
    if 0 <= i < sample_count(dims.0) {
        lemma_row_points_valid(img, y, i + 1);
        assert(2 * i < dims.0 as int);
        lemma_norm_range(2 * i, dims.0 as int);
        lemma_norm_range(y as int, dims.1 as int);
        let row = spec_row_points(img, y, i);
        let rest = spec_row_points(img, y, i + 1);
        if ink_at(img, (2 * i) as u32, y) {
            let pt = Point2D {
                x: spec_norm(2 * i, dims.0 as int) as i64,
                y: spec_norm(y as int, dims.1 as int) as i64,
            };
            assert(row == seq![pt] + rest);
            assert(pt.valid());
            assert forall|k: int| 0 <= k < row.len() implies (#[trigger] row[k]).valid() by {
                if k == 0 {
                    assert(row[k] == pt);
                } else {
                    assert(row[k] == rest[k - 1]);
                }
            }
        } else {
            assert(row == rest);
        }
    }
}

/// Every point of the sampled grid is in the normalized range.
proof fn lemma_grid_points_valid(img: image::DynamicImage, j: int)
    ensures
        forall|k: int|
            0 <= k < spec_grid_points(img, j).len() ==> (#[trigger] spec_grid_points(
                img,
                j,
            )[k]).valid(),
    decreases sample_count(img_dims(img).1) - j,
{
    let dims = img_dims(img);
    if 0 <= j < sample_count(dims.1) {
        lemma_grid_points_valid(img, j + 1);
        assert(2 * j < dims.1 as int);
        lemma_row_points_valid(img, (2 * j) as u32, 0);
        let grid = spec_grid_points(img, j);
        let row = spec_row_points(img, (2 * j) as u32, 0);
        let rest = spec_grid_points(img, j + 1);
        assert(grid == row + rest);
        assert forall|k: int| 0 <= k < grid.len() implies (#[trigger] grid[k]).valid() by {
            if k < row.len() {
                assert(grid[k] == row[k]);
            } else {
                assert(grid[k] == rest[k - row.len()]);
            }
        }
    }
}

/// Normalize one pixel position along an axis.
fn norm_coord(v: u32, dim: u32) -> (r: i64)
    requires
        v < dim,
    ensures
        r == spec_norm(v as int, dim as int),
        -FP_ONE <= r <= FP_ONE,
{
    proof {
        lemma_norm_range(v as int, dim as int);
    }
    let vi: i64 = v as i64;
    let di: i64 = dim as i64;
    let num: i64 = (2 * vi - di) * FP_ONE;
    if num >= 0 {
        ((num as u64) / (dim as u64)) as i64
    } else {
        -((((-num) as u64) / (dim as u64)) as i64)
    }
}

/// Run the point source over a decoded image: every other row and column is
/// sampled, each pure-black pixel becomes one normalized point, in row-major
/// sampling order, and the five sentinels follow. Every emitted coordinate
/// lies in the normalized range.
pub fn gen_points(img: &image::DynamicImage) -> (r: Vec<Point2D>)
    ensures
        r@ == spec_point_source(*img),
        forall|k: int| 0 <= k < r@.len() ==> (#[trigger] r@[k]).valid(),
{
    let (w, h) = image_dims(img);
    let mut pts: Vec<Point2D> = Vec::new();
    proof {
        assert(pts@ + spec_grid_points(*img, 0) =~= spec_grid_points(*img, 0));
    }
    let mut y: u64 = 0;
    while y < h as u64
        invariant
            y % 2 == 0,
            y <= h as u64 + 1,
            (w, h) == img_dims(*img),
            pts@ + spec_grid_points(*img, (y as int) / 2) == spec_grid_points(*img, 0),
        decreases h as int + 2 - y,
    {
        let yu: u32 = y as u32;
        let ghost j = (y as int) / 2;
        proof {
            assert(2 * j == y as int);
            assert(j < sample_count(h));
            assert(spec_grid_points(*img, j) == spec_row_points(*img, yu, 0) + spec_grid_points(
                *img,
                j + 1,
            ));
            assert(pts@ + spec_row_points(*img, yu, 0) + spec_grid_points(*img, j + 1) =~= pts@
                + (spec_row_points(*img, yu, 0) + spec_grid_points(*img, j + 1)));
        }
        let mut x: u64 = 0;
        while x < w as u64
            invariant
                x % 2 == 0,
                x <= w as u64 + 1,
                (w, h) == img_dims(*img),
                y < h as u64,
                y % 2 == 0,
                yu == y as u32,
                j == (y as int) / 2,
                pts@ + spec_row_points(*img, yu, (x as int) / 2) + spec_grid_points(*img, j + 1)
                    == spec_grid_points(*img, 0),
            decreases w as int + 2 - x,
        {
            let xu: u32 = x as u32;
            let ghost i = (x as int) / 2;
            proof {
                assert(2 * i == x as int);
                assert(i < sample_count(w));
            }
            let ghost pts_before = pts@;
            let px = image_pixel_rgba(img, xu, yu);
            if px.0 == 0 && px.1 == 0 && px.2 == 0 && px.3 == 255 {
                let nx = norm_coord(xu, w);
                let ny = norm_coord(yu, h);
                pts.push(Point2D { x: nx, y: ny });
            }
            proof {
                let head = spec_row_points(*img, yu, i);
                let rest = spec_row_points(*img, yu, i + 1);
                if ink_at(*img, xu, yu) {
                    let pt = Point2D {
                        x: spec_norm(2 * i, w as int) as i64,
                        y: spec_norm(yu as int, h as int) as i64,
                    };
                    assert(head == seq![pt] + rest);
                    assert(pts@ =~= pts_before + seq![pt]);
                    assert(pts@ + rest =~= pts_before + head);
                    assert(pts@ + rest + spec_grid_points(*img, j + 1) =~= pts_before + head
                        + spec_grid_points(*img, j + 1));
                } else {
                    assert(head == rest);
                }
                assert((x as int + 2) / 2 == i + 1);
            }
            x += 2;
        }
        proof {
            assert((x as int) / 2 >= sample_count(w));
            assert(spec_row_points(*img, yu, (x as int) / 2) =~= Seq::empty());
            assert(pts@ + Seq::empty() =~= pts@);
            assert(pts@ + spec_grid_points(*img, j + 1) == spec_grid_points(*img, 0));
            assert((y as int + 2) / 2 == j + 1);
        }
        y += 2;
    }
    proof {
        assert((y as int) / 2 >= sample_count(h));
        assert(spec_grid_points(*img, (y as int) / 2) =~= Seq::empty());
        assert(pts@ + Seq::empty() =~= pts@);
    }
    let ghost sampled = pts@;
    pts.push(Point2D { x: -FP_ONE, y: -FP_ONE });
    pts.push(Point2D { x: -FP_ONE, y: FP_ONE });
    pts.push(Point2D { x: FP_ONE, y: -FP_ONE });
    pts.push(Point2D { x: FP_ONE, y: FP_ONE });
    pts.push(Point2D { x: 0, y: 0 });
    proof {
        assert(pts@ =~= sampled + spec_sentinels());
        lemma_grid_points_valid(*img, 0);
        assert(forall|k: int| 0 <= k < pts@.len() ==> (#[trigger] pts@[k]).valid()) by {
            assert(forall|k: int|
                0 <= k < sampled.len() ==> (#[trigger] spec_grid_points(*img, 0)[k]).valid());
        }
    }
    pts
}

/// Re-running the point source on one image yields an identical,
/// order-preserving point sequence: what it emits is a function of the image
/// alone.
pub proof fn lemma_point_source_deterministic(
    img: image::DynamicImage,
    r1: Seq<Point2D>,
    r2: Seq<Point2D>,
)
    requires
        r1 == spec_point_source(img),
        r2 == spec_point_source(img),
    ensures
        r1 == r2,
{
}

} // verus!
