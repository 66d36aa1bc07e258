use torus_render::fixed::FP_ONE;
use torus_render::frame::{fill_output_buffer_from_point_list, lin_pos, Frame};
use torus_render::geom::{SCREEN_CELLS, SCREEN_HEIGHT, SCREEN_WIDTH};
use torus_render::points::Point2D;

fn assert_all_blank(f: &Frame) {
    for y in 0..SCREEN_HEIGHT {
        for x in 0..SCREEN_WIDTH {
            assert_eq!(f.char_at(x, y), ' ');
            assert_eq!(f.depth_at(x, y), 0);
        }
    }
}

#[test]
fn lin_pos_is_row_major() {
    assert_eq!(lin_pos(0, 0), 0);
    assert_eq!(lin_pos(79, 0), 79);
    assert_eq!(lin_pos(0, 1), 80);
    assert_eq!(lin_pos(79, 49), SCREEN_CELLS - 1);
}

#[test]
fn new_frame_is_blank() {
    let f = Frame::new();
    assert_all_blank(&f);
}

#[test]
fn reset_clears_every_cell() {
    let mut f = Frame::new();
    f.write(3, 4, 100, '@');
    f.write(79, 49, 7, '#');
    assert_eq!(f.char_at(3, 4), '@');
    f.reset();
    assert_all_blank(&f);
}

#[test]
fn depth_test_keeps_closer_write() {
    let mut f = Frame::new();
    f.write(10, 20, 2000, '*');
    // A farther (smaller inverse depth) write must not alter the cell.
    f.write(10, 20, 1500, '#');
    assert_eq!(f.char_at(10, 20), '*');
    assert_eq!(f.depth_at(10, 20), 2000);
    // An equal inverse depth keeps the earlier write too.
    f.write(10, 20, 2000, '#');
    assert_eq!(f.char_at(10, 20), '*');
    // A strictly closer write replaces it.
    f.write(10, 20, 2001, '#');
    assert_eq!(f.char_at(10, 20), '#');
    assert_eq!(f.depth_at(10, 20), 2001);
}

#[test]
fn write_order_does_not_matter_for_distinct_depths() {
    let mut f1 = Frame::new();
    f1.write(5, 5, 1000, 'a');
    f1.write(5, 5, 3000, 'b');
    let mut f2 = Frame::new();
    f2.write(5, 5, 3000, 'b');
    f2.write(5, 5, 1000, 'a');
    assert_eq!(f1.char_at(5, 5), 'b');
    assert_eq!(f2.char_at(5, 5), 'b');
    assert_eq!(f1.depth_at(5, 5), 3000);
    assert_eq!(f2.depth_at(5, 5), 3000);
}

#[test]
fn preview_stamps_points_and_skips_out_of_range() {
    let mut output = vec![' '; SCREEN_CELLS];
    let points = vec![
        Point2D { x: 0, y: 0 },
        Point2D { x: -FP_ONE, y: -FP_ONE },
        Point2D { x: FP_ONE, y: FP_ONE },
        Point2D { x: FP_ONE + 1, y: 0 },
    ];
    fill_output_buffer_from_point_list(&mut output, &points);
    // Center: ((0 + 1)/2) * 79 = 39.5 -> 39, ((0 + 1)/2) * 49 = 24.5 -> 24.
    assert_eq!(output[24 * 80 + 39], '*');
    assert_eq!(output[0], '*');
    assert_eq!(output[49 * 80 + 79], '*');
    let stamped = output.iter().filter(|c| **c == '*').count();
    assert_eq!(stamped, 3);
}
