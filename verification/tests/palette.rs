//! Checks of the palette, the swatch row and the byte-level helpers.

use microfetch::bytes::parse_u64_fast;
use microfetch::colors::Colors;
use microfetch::dots::print_dots;

#[test]
fn palette_enabled_has_the_ansi_sequences() {
    let c = Colors::new(false);
    assert_eq!(c.reset, b"\x1b[0m".to_vec());
    assert_eq!(c.blue, b"\x1b[34m".to_vec());
    assert_eq!(c.cyan, b"\x1b[36m".to_vec());
    assert_eq!(c.green, b"\x1b[32m".to_vec());
    assert_eq!(c.yellow, b"\x1b[33m".to_vec());
    assert_eq!(c.red, b"\x1b[31m".to_vec());
}

#[test]
fn palette_disabled_is_all_empty() {
    let c = Colors::new(true);
    assert_eq!(c.reset, Vec::<u8>::new());
    assert_eq!(c.blue, Vec::<u8>::new());
    assert_eq!(c.cyan, Vec::<u8>::new());
    assert_eq!(c.green, Vec::<u8>::new());
    assert_eq!(c.yellow, Vec::<u8>::new());
    assert_eq!(c.red, Vec::<u8>::new());
}

#[test]
fn palette_resolution_is_idempotent() {
    // Resolved twice under the same policy, the palette is bit-identical.
    let a = Colors::new(false);
    let b = Colors::new(false);
    assert_eq!(a.reset, b.reset);
    assert_eq!(a.blue, b.blue);
    assert_eq!(a.cyan, b.cyan);
    assert_eq!(a.green, b.green);
    assert_eq!(a.yellow, b.yellow);
    assert_eq!(a.red, b.red);

    let a = Colors::new(true);
    let b = Colors::new(true);
    assert_eq!(a.reset, b.reset);
    assert_eq!(a.cyan, b.cyan);
}

#[test]
fn dots_plain_row() {
    let glyph: &[u8] = "\u{f111}".as_bytes();
    let mut expected = Vec::new();
    for i in 0..6 {
        if i > 0 {
            expected.extend_from_slice(b"  ");
        }
        expected.extend_from_slice(glyph);
    }
    assert_eq!(print_dots(true), expected);
}

#[test]
fn dots_colored_row() {
    let glyph: &[u8] = "\u{f111}".as_bytes();
    let mut expected = Vec::new();
    for color in [b"\x1b[34m", b"\x1b[36m", b"\x1b[32m", b"\x1b[33m", b"\x1b[31m", b"\x1b[35m"] {
        expected.extend_from_slice(color);
        expected.extend_from_slice(glyph);
        expected.extend_from_slice(b"  ");
    }
    // The last glyph is followed by a reset, not a gap.
    expected.truncate(expected.len() - 2);
    expected.extend_from_slice(b"\x1b[0m");
    assert_eq!(print_dots(false), expected);
}

#[test]
fn parse_leading_digits() {
    assert_eq!(parse_u64_fast(b"123 kB"), 123);
    assert_eq!(parse_u64_fast(b"0042"), 42);
    assert_eq!(parse_u64_fast(b""), 0);
    assert_eq!(parse_u64_fast(b"kB 123"), 0);
    assert_eq!(parse_u64_fast(b"18446744073709551615"), u64::MAX);
}

#[test]
fn parse_caps_at_the_largest_value() {
    assert_eq!(parse_u64_fast(b"18446744073709551616"), u64::MAX);
    assert_eq!(parse_u64_fast(b"99999999999999999999999"), u64::MAX);
}
