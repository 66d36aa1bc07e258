use torus_render::angles::Angles;
use torus_render::geom::{A_STEP_FP, B_STEP_FP};

#[test]
fn one_tick_adds_the_fixed_increments() {
    let mut s = Angles::start();
    assert_eq!((s.a, s.b), (0, 0));
    s.tick();
    assert_eq!((s.a, s.b), (A_STEP_FP, B_STEP_FP));
    assert_eq!((s.a, s.b), (400, 200));
}

#[test]
fn ticking_is_purely_additive() {
    let mut s1 = Angles::start();
    for _ in 0..5 {
        s1.tick();
    }
    let mut s2 = Angles::start();
    for _ in 0..2 {
        s2.tick();
    }
    for _ in 0..3 {
        s2.tick();
    }
    assert_eq!(s1, s2);
    assert_eq!((s1.a, s1.b), (5 * A_STEP_FP, 5 * B_STEP_FP));
}

#[test]
fn ticks_from_arbitrary_phases() {
    let mut s = Angles { a: 123_456, b: -789 };
    s.tick();
    assert_eq!((s.a, s.b), (123_856, -589));
}
