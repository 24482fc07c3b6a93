//! The desktop collector: desktop name and session backend from two
//! environment values, shaped into `{desktop} ({Backend})`.

use vstd::prelude::*;

use crate::bytes::{copy_range, has_prefix, is_ws, push_bytes, starts_with_at};
use crate::unknown_seq;

verus! {

/// The prefix some desktops prepend to their name: `none+`.
pub open spec fn none_plus_seq() -> Seq<u8> {
    seq![110u8, 111u8, 110u8, 101u8, 43u8]
}

fn none_plus_vec() -> (r: Vec<u8>)
    ensures
        r@ == none_plus_seq(),
{
    let mut v: Vec<u8> = Vec::new();
    v.push(110);
    v.push(111);
    v.push(110);
    v.push(101);
    v.push(43);
    proof {
        assert(v@ =~= none_plus_seq());
    }
    v
}

/// The desktop's display name: the environment value with a leading
/// `none+` stripped, or the fallback when the variable is absent or was
/// not valid text.
pub open spec fn desktop_name(desktop: Option<Vec<u8>>) -> Seq<u8> {
    match desktop {
        Option::Some(v) => {
            if has_prefix(v@, 0, none_plus_seq()) {
                v@.subrange(none_plus_seq().len() as int, v@.len() as int)
            } else {
                v@
            }
        },
        Option::None => unknown_seq(),
    }
}

/// `b` with an ASCII lower-case letter raised to upper case.
pub open spec fn upper_byte(b: u8) -> u8 {
    if 97 <= b <= 122 {
        (b - 32) as u8
    } else {
        b
    }
}

/// `v` with its first byte raised to upper case.
pub open spec fn upper_first(v: Seq<u8>) -> Seq<u8> {
    if v.len() == 0 {
        v
    } else {
        seq![upper_byte(v[0])] + v.subrange(1, v.len() as int)
    }
}

/// Whether every byte of `v` is ASCII whitespace (so the trimmed value is
/// empty); holds for the empty value.
pub open spec fn all_ws(v: Seq<u8>) -> bool {
    forall|i: int| 0 <= i < v.len() ==> is_ws(#[trigger] v[i])
}

/// The backend's display name: the environment value with its first
/// character upper-cased, or the fallback when the variable is absent,
/// was not valid text, or is empty after trimming.
pub open spec fn backend_name(backend: Option<Vec<u8>>) -> Seq<u8> {
    match backend {
        Option::Some(v) => {
            if all_ws(v@) {
                unknown_seq()
            } else {
                upper_first(v@)
            }
        },
        Option::None => unknown_seq(),
    }
}

/// The desktop line: `{desktop} ({Backend})`.
pub open spec fn desktop_info_spec(desktop: Option<Vec<u8>>, backend: Option<Vec<u8>>) -> Seq<
    u8,
> {
    desktop_name(desktop) + seq![32u8, 40u8] + backend_name(backend) + seq![41u8]
}

fn push_desktop_name(dst: &mut Vec<u8>, desktop: &Option<Vec<u8>>)
    ensures
        final(dst)@ == old(dst)@ + desktop_name(*desktop),
{
    match desktop {
        Option::None => {
            let u = crate::unknown();
            push_bytes(dst, u.as_slice());
        },
        Option::Some(v) => {
            let prefix = none_plus_vec();
            if starts_with_at(v.as_slice(), 0, prefix.as_slice()) {
                let tail = copy_range(v.as_slice(), 5, v.len());
                push_bytes(dst, tail.as_slice());
            } else {
                push_bytes(dst, v.as_slice());
            }
        },
    }
}

fn push_backend_name(dst: &mut Vec<u8>, backend: &Option<Vec<u8>>)
    ensures
        final(dst)@ == old(dst)@ + backend_name(*backend),
{
    match backend {
        Option::None => {
            let u = crate::unknown();
            push_bytes(dst, u.as_slice());
        },
        Option::Some(v) => {
            let mut i: usize = 0;
            while i < v.len() && (v[i] == 32 || v[i] == 9 || v[i] == 10 || v[i] == 12 || v[i]
                == 13)
                invariant
                    i <= v@.len(),
                    forall|j: int| 0 <= j < i ==> is_ws(#[trigger] v@[j]),
                decreases v@.len() - i,
            {
                i = i + 1;
            }
            if i == v.len() {
                let u = crate::unknown();
                push_bytes(dst, u.as_slice());
            } else {
                let first = v[0];
                let up = if 97 <= first && first <= 122 {
                    first - 32
                } else {
                    first
                };
                dst.push(up);
                let tail = copy_range(v.as_slice(), 1, v.len());
                push_bytes(dst, tail.as_slice());
                proof {
                    assert(!all_ws(v@));
                    assert(dst@ =~= old(dst)@ + upper_first(v@));
                }
            }
        },
    }
}

/// Joins the desktop name and session backend into `{desktop} ({Backend})`:
/// a leading `none+` is stripped from the desktop, the backend's first
/// character is upper-cased, and either falls back to `Unknown` when its
/// variable is absent, not valid text, or (for the backend) blank. Never
/// fails.
pub fn get_desktop_info(desktop: Option<Vec<u8>>, backend: Option<Vec<u8>>) -> (r: Vec<u8>)
    ensures
        r@ == desktop_info_spec(desktop, backend),
{
    let mut v: Vec<u8> = Vec::new();
    push_desktop_name(&mut v, &desktop);
    v.push(32);
    v.push(40);
    push_backend_name(&mut v, &backend);
    v.push(41);
    proof {
        assert(v@ =~= desktop_info_spec(desktop, backend));
    }
    v
}

} // verus!
