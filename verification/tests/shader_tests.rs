use torus_render::shader::glyph_for_luminance;

const RAMP: [char; 12] = ['.', ',', '-', '~', ':', ';', '=', '!', '*', '#', '$', '@'];

#[test]
fn glyph_thresholds() {
    assert_eq!(glyph_for_luminance(0), '.');
    assert_eq!(glyph_for_luminance(1249), '.');
    assert_eq!(glyph_for_luminance(1250), ',');
    assert_eq!(glyph_for_luminance(2500), '-');
    assert_eq!(glyph_for_luminance(10000), '*');
    assert_eq!(glyph_for_luminance(13750), '@');
    // The top of the theoretical range, sqrt(2):
    assert_eq!(glyph_for_luminance(14142), '@');
}

#[test]
fn glyph_uses_magnitude() {
    assert_eq!(glyph_for_luminance(-14142), '@');
    assert_eq!(glyph_for_luminance(-10000), '*');
    assert_eq!(glyph_for_luminance(-1), '.');
}

#[test]
fn glyph_clamps_beyond_range() {
    assert_eq!(glyph_for_luminance(1_000_000), '@');
    assert_eq!(glyph_for_luminance(-1_000_000), '@');
}

#[test]
fn glyph_total_and_monotone_over_valid_range() {
    let mut last_idx = 0usize;
    let mut l: i64 = 0;
    while l <= 14142 {
        let g = glyph_for_luminance(l);
        let idx = RAMP.iter().position(|c| *c == g).expect("glyph not in ramp");
        assert!(idx >= last_idx, "brightness dropped at {}", l);
        assert_eq!(glyph_for_luminance(-l), g);
        last_idx = idx;
        l += 1;
    }
    assert_eq!(last_idx, 11);
}
