use image::{DynamicImage, Rgba, RgbaImage};
use torus_render::fixed::FP_ONE;
use torus_render::points::Point2D;
use torus_render::source::gen_points;

const BLACK: Rgba<u8> = Rgba([0, 0, 0, 255]);
const WHITE: Rgba<u8> = Rgba([255, 255, 255, 255]);

fn sentinels() -> Vec<Point2D> {
    vec![
        Point2D { x: -FP_ONE, y: -FP_ONE },
        Point2D { x: -FP_ONE, y: FP_ONE },
        Point2D { x: FP_ONE, y: -FP_ONE },
        Point2D { x: FP_ONE, y: FP_ONE },
        Point2D { x: 0, y: 0 },
    ]
}

#[test]
fn white_image_yields_sentinels_only() {
    let img = DynamicImage::ImageRgba8(RgbaImage::from_pixel(3, 3, WHITE));
    let points = gen_points(&img);
    assert_eq!(points, sentinels());
}

#[test]
fn four_by_four_samples_every_other_pixel() {
    let mut buf = RgbaImage::from_pixel(4, 4, WHITE);
    buf.put_pixel(0, 0, BLACK);
    buf.put_pixel(2, 2, BLACK);
    // Black pixels at odd positions are skipped by the sampling.
    buf.put_pixel(1, 1, BLACK);
    buf.put_pixel(3, 2, BLACK);
    let img = DynamicImage::ImageRgba8(buf);
    let points = gen_points(&img);
    let mut expected = vec![
        Point2D { x: -FP_ONE, y: -FP_ONE },  // pixel (0, 0) of a 4x4 image
        Point2D { x: 0, y: 0 },  // pixel (2, 2)
    ];
    expected.extend(sentinels());
    assert_eq!(points, expected);
}

#[test]
fn translucent_black_is_not_ink() {
    let mut buf = RgbaImage::from_pixel(4, 4, WHITE);
    buf.put_pixel(0, 0, Rgba([0, 0, 0, 254]));
    buf.put_pixel(2, 0, Rgba([1, 0, 0, 255]));
    let img = DynamicImage::ImageRgba8(buf);
    assert_eq!(gen_points(&img), sentinels());
}

#[test]
fn odd_dimensions_truncate_normalization() {
    let mut buf = RgbaImage::from_pixel(5, 3, WHITE);
    buf.put_pixel(4, 2, BLACK);
    let img = DynamicImage::ImageRgba8(buf);
    let points = gen_points(&img);
    // x: (2*4 - 5) * 10000 / 5 = 6000; y: (2*2 - 3) * 10000 / 3 = 3333.
    let mut expected = vec![Point2D { x: 6000, y: 3333 }];
    expected.extend(sentinels());
    assert_eq!(points, expected);
}

#[test]
fn all_points_stay_in_normalized_range() {
    let mut buf = RgbaImage::from_pixel(7, 9, WHITE);
    for y in 0..9 {
        for x in 0..7 {
            if (x + y) % 2 == 0 {
                buf.put_pixel(x, y, BLACK);
            }
        }
    }
    let img = DynamicImage::ImageRgba8(buf);
    for p in gen_points(&img) {
        assert!(-FP_ONE <= p.x && p.x <= FP_ONE);
        assert!(-FP_ONE <= p.y && p.y <= FP_ONE);
    }
}

#[test]
fn point_source_is_deterministic() {
    let mut buf = RgbaImage::from_pixel(6, 6, WHITE);
    buf.put_pixel(0, 2, BLACK);
    buf.put_pixel(4, 4, BLACK);
    buf.put_pixel(2, 0, BLACK);
    let img = DynamicImage::ImageRgba8(buf);
    let first = gen_points(&img);
    let second = gen_points(&img);
    assert_eq!(first, second);
}
