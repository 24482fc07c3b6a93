//! Verified collection layer of a small system-fetch utility.
//!
//! Each collector turns one already-read OS data source (environment values,
//! the bytes of a small system file, the integers a system call returned)
//! into one formatted byte string. All parsing, arithmetic and formatting is
//! verified; the thin shell that performs the reads and system calls lives
//! outside this library and hands plain values in.

pub mod bytes;
pub mod colors;
pub mod desktop;
pub mod dots;
pub mod release;
pub mod system;
pub mod uptime;

use vstd::prelude::*;

verus! {

/// The fallback text shown for a field whose source is absent or unreadable.
pub open spec fn unknown_seq() -> Seq<u8> {
    // "Unknown"
    seq![85u8, 110u8, 107u8, 110u8, 111u8, 119u8, 110u8]
}

/// Returns the fallback text `Unknown` as bytes.
pub fn unknown() -> (r: Vec<u8>)
    ensures
        r@ == unknown_seq(),
{
    let mut v: Vec<u8> = Vec::new();
    v.push(85);
    v.push(110);
    v.push(107);
    v.push(110);
    v.push(111);
    v.push(119);
    v.push(110);
    proof {
        assert(v@ =~= unknown_seq());
    }
    v
}

} // verus!
