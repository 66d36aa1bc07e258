use torus_render::engine::{render_frame, Trig};
use torus_render::fixed::FP_ONE;
use torus_render::frame::Frame;
use torus_render::geom::{SCREEN_HEIGHT, SCREEN_WIDTH};
use torus_render::points::Point2D;

/// Trigonometric inputs for both phases at zero: cos 1.0, sin 0.0.
fn identity_trig() -> Trig {
    Trig { cos_a: FP_ONE, sin_a: 0, cos_b: FP_ONE, sin_b: 0 }
}

fn frames_equal(f1: &Frame, f2: &Frame) -> bool {
    for y in 0..SCREEN_HEIGHT {
        for x in 0..SCREEN_WIDTH {
            if f1.char_at(x, y) != f2.char_at(x, y) || f1.depth_at(x, y) != f2.depth_at(x, y) {
                return false;
            }
        }
    }
    true
}

#[test]
fn corners_and_center_at_zero_angles() {
    // The five sentinel points alone, with both rotation phases at zero.
    let points = vec![
        Point2D { x: -FP_ONE, y: -FP_ONE },
        Point2D { x: -FP_ONE, y: FP_ONE },
        Point2D { x: FP_ONE, y: -FP_ONE },
        Point2D { x: FP_ONE, y: FP_ONE },
        Point2D { x: 0, y: 0 },
    ];
    let mut f = Frame::new();
    render_frame(&mut f, &points, &identity_trig());
    // The center lands exactly mid-screen with inverse depth 1/K2 = 0.2,
    // and at zero luminance it draws the dimmest glyph.
    assert_eq!(f.char_at(40, 25), '.');
    assert_eq!(f.depth_at(40, 25), 2000);
    // The corners bow so far out that they project off the screen: every
    // other cell stays blank.
    for y in 0..SCREEN_HEIGHT {
        for x in 0..SCREEN_WIDTH {
            if (x, y) != (40, 25) {
                assert_eq!(f.char_at(x, y), ' ');
                assert_eq!(f.depth_at(x, y), 0);
            }
        }
    }
}

#[test]
fn empty_point_list_renders_blank_frame() {
    let mut f = Frame::new();
    f.write(1, 1, 5, 'x');
    render_frame(&mut f, &vec![], &identity_trig());
    for y in 0..SCREEN_HEIGHT {
        for x in 0..SCREEN_WIDTH {
            assert_eq!(f.char_at(x, y), ' ');
            assert_eq!(f.depth_at(x, y), 0);
        }
    }
}

#[test]
fn closer_point_wins_in_either_order() {
    // Both points project to the same cell; the second sits farther from the
    // screen center, bows deeper, and so is closer to the camera.
    let near = Point2D { x: 0, y: 1000 };
    let nearer = Point2D { x: 0, y: 1200 };
    let t = identity_trig();

    let mut f1 = Frame::new();
    render_frame(&mut f1, &vec![near, nearer], &t);
    let mut f2 = Frame::new();
    render_frame(&mut f2, &vec![nearer, near], &t);

    assert!(frames_equal(&f1, &f2));
    // Both landed on one cell, and the closer inverse depth survives.
    assert_eq!(f1.depth_at(40, 27), 2006);
    assert_eq!(f1.char_at(40, 27), '.');
    let mut written = 0;
    for y in 0..SCREEN_HEIGHT {
        for x in 0..SCREEN_WIDTH {
            if f1.char_at(x, y) != ' ' {
                written += 1;
            }
        }
    }
    assert_eq!(written, 1);
}

#[test]
fn rerendering_same_inputs_is_identical() {
    let points = vec![
        Point2D { x: 2500, y: -7500 },
        Point2D { x: -5000, y: 5000 },
        Point2D { x: 0, y: 0 },
    ];
    let t = Trig { cos_a: 9211, sin_a: 3894, cos_b: 9801, sin_b: 1987 };
    let mut f1 = Frame::new();
    render_frame(&mut f1, &points, &t);
    let mut f2 = Frame::new();
    render_frame(&mut f2, &points, &t);
    assert!(frames_equal(&f1, &f2));
}
