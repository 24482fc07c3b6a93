//! The terminal color palette: eight fixed escape sequences, or empty
//! strings when the no-color policy is active. The policy itself (presence
//! of a disabling environment signal) is read outside the library and handed
//! in as a boolean.

use vstd::prelude::*;

verus! {

/// The SGR reset sequence, `ESC [ 0 m`.
pub open spec fn reset_seq() -> Seq<u8> {
    seq![27u8, 91u8, 48u8, 109u8]
}

/// A standard foreground color sequence, `ESC [ 3 x m`, for the color
/// whose final code digit is `ones` (an ASCII digit).
pub open spec fn color_seq(ones: u8) -> Seq<u8> {
    seq![27u8, 91u8, 51u8, ones, 109u8]
}

/// Blue: `ESC [ 3 4 m`.
pub open spec fn blue_seq() -> Seq<u8> {
    color_seq(52)
}

/// Cyan: `ESC [ 3 6 m`.
pub open spec fn cyan_seq() -> Seq<u8> {
    color_seq(54)
}

/// Green: `ESC [ 3 2 m`.
pub open spec fn green_seq() -> Seq<u8> {
    color_seq(50)
}

/// Yellow: `ESC [ 3 3 m`.
pub open spec fn yellow_seq() -> Seq<u8> {
    color_seq(51)
}

/// Red: `ESC [ 3 1 m`.
pub open spec fn red_seq() -> Seq<u8> {
    color_seq(49)
}

/// Magenta: `ESC [ 3 5 m`.
pub open spec fn magenta_seq() -> Seq<u8> {
    color_seq(53)
}

/// The palette every collector colors its output with. Exactly two
/// variants exist: the ANSI escape sequences, or all-empty strings when
/// the no-color policy is active.
pub struct Colors {
    pub reset: Vec<u8>,
    pub blue: Vec<u8>,
    pub cyan: Vec<u8>,
    pub green: Vec<u8>,
    pub yellow: Vec<u8>,
    pub red: Vec<u8>,
}

/// Pins every field of `c` to the variant that `is_no_color` selects.
pub open spec fn is_palette(c: &Colors, is_no_color: bool) -> bool {
    if is_no_color {
        &&& c.reset@ == Seq::<u8>::empty()
        &&& c.blue@ == Seq::<u8>::empty()
        &&& c.cyan@ == Seq::<u8>::empty()
        &&& c.green@ == Seq::<u8>::empty()
        &&& c.yellow@ == Seq::<u8>::empty()
        &&& c.red@ == Seq::<u8>::empty()
    } else {
        &&& c.reset@ == reset_seq()
        &&& c.blue@ == blue_seq()
        &&& c.cyan@ == cyan_seq()
        &&& c.green@ == green_seq()
        &&& c.yellow@ == yellow_seq()
        &&& c.red@ == red_seq()
    }
}

/// Builds the reset escape sequence.
pub fn reset_vec() -> (r: Vec<u8>)
    ensures
        r@ == reset_seq(),
{
    let mut v: Vec<u8> = Vec::new();
    v.push(27);
    v.push(91);
    v.push(48);
    v.push(109);
    proof {
        assert(v@ =~= reset_seq());
    }
    v
}

/// Builds the foreground color sequence whose final code digit is `ones`.
pub fn color_vec(ones: u8) -> (r: Vec<u8>)
    ensures
        r@ == color_seq(ones),
{
    let mut v: Vec<u8> = Vec::new();
    v.push(27);
    v.push(91);
    v.push(51);
    v.push(ones);
    v.push(109);
    proof {
        assert(v@ =~= color_seq(ones));
    }
    v
}

impl Colors {
    /// Selects the palette variant: empty strings when the no-color policy
    /// is active, the fixed ANSI sequences otherwise.
    pub fn new(is_no_color: bool) -> (c: Colors)
        ensures
            is_palette(&c, is_no_color),
    {
        if is_no_color {
            Colors {
                reset: Vec::new(),
                blue: Vec::new(),
                cyan: Vec::new(),
                green: Vec::new(),
                yellow: Vec::new(),
                red: Vec::new(),
            }
        } else {
            Colors {
                reset: reset_vec(),
                blue: color_vec(52),
                cyan: color_vec(54),
                green: color_vec(50),
                yellow: color_vec(51),
                red: color_vec(49),
            }
        }
    }
}

/// Law: the palette is a function of the no-color policy alone. Any two
/// palettes resolved under the same policy hold bit-identical escape
/// sequences, so every query within one run observes the same bytes.
pub proof fn lemma_palette_idempotent(a: &Colors, b: &Colors, is_no_color: bool)
    requires
        is_palette(a, is_no_color),
        is_palette(b, is_no_color),
    ensures
        a.reset@ == b.reset@,
        a.blue@ == b.blue@,
        a.cyan@ == b.cyan@,
        a.green@ == b.green@,
        a.yellow@ == b.yellow@,
        a.red@ == b.red@,
{
}

} // verus!
