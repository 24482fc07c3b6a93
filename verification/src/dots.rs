//! The color swatch row of the banner: six dot glyphs, each painted in one
//! palette color, or plain glyphs when the no-color policy is active.

use vstd::prelude::*;

use crate::bytes::push_bytes;
use crate::colors::{
    blue_seq, color_vec, cyan_seq, green_seq, magenta_seq, red_seq, reset_seq, reset_vec,
    yellow_seq,
};

verus! {

/// The dot glyph, U+F111 in UTF-8.
pub open spec fn glyph_seq() -> Seq<u8> {
    seq![239u8, 132u8, 145u8]
}

/// The two-space gap between dots.
pub open spec fn gap_seq() -> Seq<u8> {
    seq![32u8, 32u8]
}

/// The swatch row: with colors off, six glyphs separated by gaps; with
/// colors on, each glyph is preceded by its color and the row ends with a
/// reset instead of a sixth gap.
pub open spec fn dots_seq(is_no_color: bool) -> Seq<u8> {
    if is_no_color {
        glyph_seq() + gap_seq() + glyph_seq() + gap_seq() + glyph_seq() + gap_seq()
            + glyph_seq() + gap_seq() + glyph_seq() + gap_seq() + glyph_seq()
    } else {
        blue_seq() + glyph_seq() + gap_seq() + cyan_seq() + glyph_seq() + gap_seq()
            + green_seq() + glyph_seq() + gap_seq() + yellow_seq() + glyph_seq() + gap_seq()
            + red_seq() + glyph_seq() + gap_seq() + magenta_seq() + glyph_seq() + reset_seq()
    }
}

fn push_glyph(dst: &mut Vec<u8>)
    ensures
        final(dst)@ == old(dst)@ + glyph_seq(),
{
    dst.push(239);
    dst.push(132);
    dst.push(145);
    proof {
        assert(dst@ =~= old(dst)@ + glyph_seq());
    }
}

fn push_gap(dst: &mut Vec<u8>)
    ensures
        final(dst)@ == old(dst)@ + gap_seq(),
{
    dst.push(32);
    dst.push(32);
    proof {
        assert(dst@ =~= old(dst)@ + gap_seq());
    }
}

/// Renders the color swatch row for the given no-color policy.
pub fn print_dots(is_no_color: bool) -> (r: Vec<u8>)
    ensures
        r@ == dots_seq(is_no_color),
{
    let mut v: Vec<u8> = Vec::new();
    if is_no_color {
        push_glyph(&mut v);
        push_gap(&mut v);
        push_glyph(&mut v);
        push_gap(&mut v);
        push_glyph(&mut v);
        push_gap(&mut v);
        push_glyph(&mut v);
        push_gap(&mut v);
        push_glyph(&mut v);
        push_gap(&mut v);
        push_glyph(&mut v);
        proof {
            assert(v@ =~= dots_seq(true));
        }
    } else {
        let blue = color_vec(52);
        push_bytes(&mut v, blue.as_slice());
        push_glyph(&mut v);
        push_gap(&mut v);
        let cyan = color_vec(54);
        push_bytes(&mut v, cyan.as_slice());
        push_glyph(&mut v);
        push_gap(&mut v);
        let green = color_vec(50);
        push_bytes(&mut v, green.as_slice());
        push_glyph(&mut v);
        push_gap(&mut v);
        let yellow = color_vec(51);
        push_bytes(&mut v, yellow.as_slice());
        push_glyph(&mut v);
        push_gap(&mut v);
        let red = color_vec(49);
        push_bytes(&mut v, red.as_slice());
        push_glyph(&mut v);
        push_gap(&mut v);
        let magenta = color_vec(53);
        push_bytes(&mut v, magenta.as_slice());
        push_glyph(&mut v);
        let reset = reset_vec();
        push_bytes(&mut v, reset.as_slice());
        proof {
            assert(v@ =~= dots_seq(false));
        }
    }
    v
}

} // verus!
