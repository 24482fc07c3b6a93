//! The OS pretty-name collector and the kernel identity line.
//!
//! `get_os_pretty_name` scans the bytes of the system release file for the
//! first `PRETTY_NAME=` line; `get_system_info` joins the kernel identity
//! fields into one line.

use vstd::prelude::*;

use crate::bytes::{copy_range, find_line_end, has_prefix, line_end, push_bytes, starts_with_at};
use crate::unknown_seq;

verus! {

/// The key the release file is scanned for: `PRETTY_NAME=`.
pub open spec fn pretty_key() -> Seq<u8> {
    seq![80u8, 82u8, 69u8, 84u8, 84u8, 89u8, 95u8, 78u8, 65u8, 77u8, 69u8, 61u8]
}

/// Builds the `PRETTY_NAME=` key as bytes.
fn pretty_key_vec() -> (r: Vec<u8>)
    ensures
        r@ == pretty_key(),
{
    let mut v: Vec<u8> = Vec::new();
    v.push(80);
    v.push(82);
    v.push(69);
    v.push(84);
    v.push(84);
    v.push(89);
    v.push(95);
    v.push(78);
    v.push(65);
    v.push(77);
    v.push(69);
    v.push(61);
    proof {
        assert(v@ =~= pretty_key());
    }
    v
}

/// Strips exactly one pair of surrounding double quotes, and only a pair:
/// a value quoted on one side alone is kept as it is.
pub open spec fn strip_quotes(v: Seq<u8>) -> Seq<u8> {
    if v.len() >= 2 && v[0] == 34 && v[v.len() - 1] == 34 {
        v.subrange(1, v.len() - 1)
    } else {
        v
    }
}

/// The value of the first line at or after `off` that begins with
/// `PRETTY_NAME=`, quotes stripped; the fallback text when no line matches.
pub open spec fn pretty_name_from(s: Seq<u8>, off: int) -> Seq<u8>
    decreases s.len() - off,
    via pretty_name_from_decreases
{
    if !(0 <= off < s.len()) {
        unknown_seq()
    } else {
        let e = line_end(s, off);
        if has_prefix(s, off, pretty_key()) && off + pretty_key().len() <= e {
            strip_quotes(s.subrange(off + pretty_key().len(), e))
        } else {
            if e + 1 < s.len() {
                pretty_name_from(s, e + 1)
            } else {
                unknown_seq()
            }
        }
    }
}

#[via_fn]
proof fn pretty_name_from_decreases(s: Seq<u8>, off: int) {
    if 0 <= off < s.len() {
        crate::bytes::lemma_line_end_bounds(s, off);
    }
}

/// What the collector returns on a release file holding these bytes.
pub open spec fn os_pretty_name_spec(s: Seq<u8>) -> Seq<u8> {
    pretty_name_from(s, 0)
}

/// Scans `content` (the bytes of the system release file) line by line for
/// the first line that begins with `PRETTY_NAME=`, and returns its value
/// with one pair of surrounding double quotes stripped. Returns the
/// fallback text `Unknown` when no line matches; that is not an error.
pub fn get_os_pretty_name(content: &[u8]) -> (r: Vec<u8>)
    ensures
        r@ == os_pretty_name_spec(content@),
{
    let key = pretty_key_vec();
    let mut offset: usize = 0;
    while offset < content.len()
        invariant
            offset <= content@.len(),
            key@ == pretty_key(),
            os_pretty_name_spec(content@) == pretty_name_from(content@, offset as int),
        decreases content@.len() - offset,
    {
        let e = find_line_end(content, offset);
        if starts_with_at(content, offset, key.as_slice()) && offset + key.len() <= e {
            let vstart = offset + key.len();
            let stripped = if e - vstart >= 2 && content[vstart] == 34 && content[e - 1] == 34 {
                copy_range(content, vstart + 1, e - 1)
            } else {
                copy_range(content, vstart, e)
            };
            proof {
                let line_val = content@.subrange(vstart as int, e as int);
                if line_val.len() >= 2 && line_val[0] == 34 && line_val[line_val.len() - 1] == 34 {
                    assert(strip_quotes(line_val)
                        =~= content@.subrange(vstart + 1, e - 1));
                } else {
                    assert(strip_quotes(line_val) == line_val);
                }
            }
            return stripped;
        }
        if e < content.len() - 1 {
            offset = e + 1;
        } else {
            proof {
                assert(pretty_name_from(content@, offset as int) == unknown_seq());
            }
            return crate::unknown();
        }
    }
    crate::unknown()
}

/// The kernel identity line: `sysname release (machine)`. A field whose
/// bytes were not valid text arrives as `None` and shows as the fallback.
pub open spec fn system_info_spec(
    sysname: Option<Vec<u8>>,
    release: Option<Vec<u8>>,
    machine: Option<Vec<u8>>,
) -> Seq<u8> {
    field_or_unknown(sysname) + seq![32u8] + field_or_unknown(release) + seq![32u8, 40u8]
        + field_or_unknown(machine) + seq![41u8]
}

/// The bytes of an identity field, or the fallback text when absent.
pub open spec fn field_or_unknown(o: Option<Vec<u8>>) -> Seq<u8> {
    match o {
        Option::Some(v) => v@,
        Option::None => unknown_seq(),
    }
}

fn push_field_or_unknown(dst: &mut Vec<u8>, o: &Option<Vec<u8>>)
    ensures
        final(dst)@ == old(dst)@ + field_or_unknown(*o),
{
    match o {
        Option::Some(v) => push_bytes(dst, v.as_slice()),
        Option::None => {
            let u = crate::unknown();
            push_bytes(dst, u.as_slice());
        },
    }
}

/// Joins the kernel identity fields into `sysname release (machine)`,
/// substituting the fallback text for any field that is absent.
pub fn get_system_info(
    sysname: Option<Vec<u8>>,
    release: Option<Vec<u8>>,
    machine: Option<Vec<u8>>,
) -> (r: Vec<u8>)
    ensures
        r@ == system_info_spec(sysname, release, machine),
{
    let mut v: Vec<u8> = Vec::new();
    push_field_or_unknown(&mut v, &sysname);
    v.push(32);
    push_field_or_unknown(&mut v, &release);
    v.push(32);
    v.push(40);
    push_field_or_unknown(&mut v, &machine);
    v.push(41);
    proof {
        assert(v@ =~= system_info_spec(sysname, release, machine));
    }
    v
}

} // verus!
