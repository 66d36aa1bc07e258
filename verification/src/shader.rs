//! Mapping a luminance scalar to a glyph of the fixed twelve-step ramp.

use crate::fixed::FP_ONE;
use vstd::arithmetic::div_mod::{lemma_div_is_ordered, lemma_div_pos_is_pos};
use vstd::prelude::*;

verus! {

/// Absolute value.
pub open spec fn abs_val(l: int) -> int {
    if l < 0 {
        -l
    } else {
        l
    }
}

/// The ramp glyph at a given index, dimmest to brightest. Indices at or above
/// the top of the ramp saturate at the brightest glyph; negative ones cannot
/// arise from [`glyph_index_spec`].
pub open spec fn ramp_char(i: int) -> char {
    if i <= 0 {
        '.'
    } else if i == 1 {
        ','
    } else if i == 2 {
        '-'
    } else if i == 3 {
        '~'
    } else if i == 4 {
        ':'
    } else if i == 5 {
        ';'
    } else if i == 6 {
        '='
    } else if i == 7 {
        '!'
    } else if i == 8 {
        '*'
    } else if i == 9 {
        '#'
    } else if i == 10 {
        '$'
    } else {
        '@'
    }
}

/// Whether a glyph belongs to the luminance ramp.
pub open spec fn in_ramp(c: char) -> bool {
    exists|i: int| 0 <= i < 12 && c == ramp_char(i)
}

/// The ramp index for a luminance value: `|lum| * 8`, truncated to the
/// fixed-point grid, clamped defensively to the top of the ramp.
pub open spec fn glyph_index_spec(lum: int) -> int {
    let scaled = abs_val(lum) * 8 / (FP_ONE as int);
    if scaled > 11 {
        11
    } else {
        scaled
    }
}

/// The glyph shown for a luminance value.
pub open spec fn glyph_spec(lum: int) -> char {
    ramp_char(glyph_index_spec(lum))
}

/// Select the ramp glyph for a fixed-point luminance value.
pub fn glyph_for_luminance(lum: i64) -> (g: char)
    requires
        -1_000_000_000_000_000_000 <= lum <= 1_000_000_000_000_000_000,
    ensures
        g == glyph_spec(lum as int),
        in_ramp(g),
{
    let a: i64 = if lum < 0 {
        -lum
    } else {
        lum
    };
    let scaled: u64 = ((a as u64) * 8) / (FP_ONE as u64);
    proof {
        lemma_div_pos_is_pos(a as int * 8, FP_ONE as int);
    }
    let idx: u64 = if scaled > 11 {
        11
    } else {
        scaled
    };
    proof {
        assert(idx == glyph_index_spec(lum as int));
    }
    let g = if idx == 0 {
        '.'
    } else if idx == 1 {
        ','
    } else if idx == 2 {
        '-'
    } else if idx == 3 {
        '~'
    } else if idx == 4 {
        ':'
    } else if idx == 5 {
        ';'
    } else if idx == 6 {
        '='
    } else if idx == 7 {
        '!'
    } else if idx == 8 {
        '*'
    } else if idx == 9 {
        '#'
    } else if idx == 10 {
        '$'
    } else {
        '@'
    };
    proof {
        assert(in_ramp(g)) by {
            assert(g == ramp_char(glyph_index_spec(lum as int)));
            assert(0 <= glyph_index_spec(lum as int) < 12);
        }
    }
    g
}

/// The glyph mapping is total and monotone: every luminance yields a ramp
/// glyph, and a luminance of no smaller magnitude yields a glyph no dimmer.
pub proof fn lemma_glyph_total_monotone(l1: int, l2: int)
    requires
        abs_val(l1) <= abs_val(l2),
    ensures
        0 <= glyph_index_spec(l1) <= 11,
        glyph_index_spec(l1) <= glyph_index_spec(l2),
        in_ramp(glyph_spec(l1)),
{
    lemma_div_pos_is_pos(abs_val(l1) * 8, FP_ONE as int);
    lemma_div_pos_is_pos(abs_val(l2) * 8, FP_ONE as int);
    lemma_div_is_ordered(abs_val(l1) * 8, abs_val(l2) * 8, FP_ONE as int);
    assert(glyph_spec(l1) == ramp_char(glyph_index_spec(l1)));
}

} // verus!
