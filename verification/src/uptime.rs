//! The uptime collector: seconds since boot, decomposed into days, hours
//! and minutes and joined into a pluralized phrase. The seconds value comes
//! from the system-info facility, read outside the library.

use vstd::prelude::*;

use crate::bytes::{dec_rep, push_bytes, push_u64};

verus! {

/// Whole days in `s` seconds.
pub open spec fn days_of(s: u64) -> nat {
    (s as nat) / 86400
}

/// Hours in `s` seconds, beyond the whole days.
pub open spec fn hours_of(s: u64) -> nat {
    ((s as nat) / 3600) % 24
}

/// Minutes in `s` seconds, beyond the whole hours; seconds are discarded.
pub open spec fn minutes_of(s: u64) -> nat {
    ((s as nat) / 60) % 60
}

/// ` day` / ` days`.
pub open spec fn day_seq() -> Seq<u8> {
    seq![32u8, 100u8, 97u8, 121u8]
}

pub open spec fn days_seq() -> Seq<u8> {
    seq![32u8, 100u8, 97u8, 121u8, 115u8]
}

/// ` hour` / ` hours`.
pub open spec fn hour_seq() -> Seq<u8> {
    seq![32u8, 104u8, 111u8, 117u8, 114u8]
}

pub open spec fn hours_seq() -> Seq<u8> {
    seq![32u8, 104u8, 111u8, 117u8, 114u8, 115u8]
}

/// ` minute` / ` minutes`.
pub open spec fn minute_seq() -> Seq<u8> {
    seq![32u8, 109u8, 105u8, 110u8, 117u8, 116u8, 101u8]
}

pub open spec fn minutes_seq() -> Seq<u8> {
    seq![32u8, 109u8, 105u8, 110u8, 117u8, 116u8, 101u8, 115u8]
}

/// `, `, the separator between phrase components.
pub open spec fn comma_seq() -> Seq<u8> {
    seq![44u8, 32u8]
}

/// `less than a minute`, shown when all three units are zero.
pub open spec fn less_than_a_minute_seq() -> Seq<u8> {
    seq![
        108u8, 101u8, 115u8, 115u8, 32u8, 116u8, 104u8, 97u8, 110u8, 32u8, 97u8, 32u8, 109u8,
        105u8, 110u8, 117u8, 116u8, 101u8,
    ]
}

/// One phrase component: the count followed by the singular word for one,
/// the plural word otherwise.
pub open spec fn unit_seq(n: nat, singular: Seq<u8>, plural: Seq<u8>) -> Seq<u8> {
    dec_rep(n) + if n == 1 {
        singular
    } else {
        plural
    }
}

/// The phrase for a days/hours/minutes decomposition: the non-zero
/// components in that fixed order, joined with `, `, zero components
/// omitted entirely; the fallback wording when all three are zero.
pub open spec fn uptime_phrase(d: nat, h: nat, m: nat) -> Seq<u8> {
    let p0 = if d > 0 {
        unit_seq(d, day_seq(), days_seq())
    } else {
        Seq::<u8>::empty()
    };
    let p1 = if h > 0 {
        if p0.len() > 0 {
            p0 + comma_seq() + unit_seq(h, hour_seq(), hours_seq())
        } else {
            unit_seq(h, hour_seq(), hours_seq())
        }
    } else {
        p0
    };
    let p2 = if m > 0 {
        if p1.len() > 0 {
            p1 + comma_seq() + unit_seq(m, minute_seq(), minutes_seq())
        } else {
            unit_seq(m, minute_seq(), minutes_seq())
        }
    } else {
        p1
    };
    if p2.len() == 0 {
        less_than_a_minute_seq()
    } else {
        p2
    }
}

/// What the uptime collector returns for `seconds` since boot.
pub open spec fn uptime_spec(seconds: u64) -> Seq<u8> {
    uptime_phrase(days_of(seconds), hours_of(seconds), minutes_of(seconds))
}

fn day_words() -> (r: (Vec<u8>, Vec<u8>))
    ensures
        r.0@ == day_seq(),
        r.1@ == days_seq(),
{
    let mut s: Vec<u8> = Vec::new();
    s.push(32);
    s.push(100);
    s.push(97);
    s.push(121);
    let mut p: Vec<u8> = Vec::new();
    p.push(32);
    p.push(100);
    p.push(97);
    p.push(121);
    p.push(115);
    proof {
        assert(s@ =~= day_seq());
        assert(p@ =~= days_seq());
    }
    (s, p)
}

fn hour_words() -> (r: (Vec<u8>, Vec<u8>))
    ensures
        r.0@ == hour_seq(),
        r.1@ == hours_seq(),
{
    let mut s: Vec<u8> = Vec::new();
    s.push(32);
    s.push(104);
    s.push(111);
    s.push(117);
    s.push(114);
    let mut p: Vec<u8> = Vec::new();
    p.push(32);
    p.push(104);
    p.push(111);
    p.push(117);
    p.push(114);
    p.push(115);
    proof {
        assert(s@ =~= hour_seq());
        assert(p@ =~= hours_seq());
    }
    (s, p)
}

fn minute_words() -> (r: (Vec<u8>, Vec<u8>))
    ensures
        r.0@ == minute_seq(),
        r.1@ == minutes_seq(),
{
    let mut s: Vec<u8> = Vec::new();
    s.push(32);
    s.push(109);
    s.push(105);
    s.push(110);
    s.push(117);
    s.push(116);
    s.push(101);
    let mut p: Vec<u8> = Vec::new();
    p.push(32);
    p.push(109);
    p.push(105);
    p.push(110);
    p.push(117);
    p.push(116);
    p.push(101);
    p.push(115);
    proof {
        assert(s@ =~= minute_seq());
        assert(p@ =~= minutes_seq());
    }
    (s, p)
}

fn push_unit(dst: &mut Vec<u8>, n: u64, singular: &[u8], plural: &[u8])
    ensures
        final(dst)@ == old(dst)@ + unit_seq(n as nat, singular@, plural@),
{
    push_u64(dst, n);
    if n == 1 {
        push_bytes(dst, singular);
    } else {
        push_bytes(dst, plural);
    }
    proof {
        assert(dst@ =~= old(dst)@ + unit_seq(n as nat, singular@, plural@));
    }
}

fn push_comma(dst: &mut Vec<u8>)
    ensures
        final(dst)@ == old(dst)@ + comma_seq(),
{
    dst.push(44);
    dst.push(32);
    proof {
        assert(dst@ =~= old(dst)@ + comma_seq());
    }
}

fn less_than_a_minute_vec() -> (r: Vec<u8>)
    ensures
        r@ == less_than_a_minute_seq(),
{
    let mut v: Vec<u8> = Vec::new();
    v.push(108);
    v.push(101);
    v.push(115);
    v.push(115);
    v.push(32);
    v.push(116);
    v.push(104);
    v.push(97);
    v.push(110);
    v.push(32);
    v.push(97);
    v.push(32);
    v.push(109);
    v.push(105);
    v.push(110);
    v.push(117);
    v.push(116);
    v.push(101);
    proof {
        assert(v@ =~= less_than_a_minute_seq());
    }
    v
}

/// Builds the uptime phrase for `uptime_seconds` since boot: days, hours
/// and minutes in that order, each pluralized, zero units omitted, joined
/// with `, `; `less than a minute` when the uptime is under one minute.
pub fn get_current(uptime_seconds: u64) -> (r: Vec<u8>)
    ensures
        r@ == uptime_spec(uptime_seconds),
{
    let days = uptime_seconds / 86400;
    let hours = (uptime_seconds / 3600) % 24;
    let minutes = (uptime_seconds / 60) % 60;

    let mut v: Vec<u8> = Vec::new();
    if days > 0 {
        let (sing, plur) = day_words();
        push_unit(&mut v, days, sing.as_slice(), plur.as_slice());
    }
    if hours > 0 {
        if v.len() > 0 {
            push_comma(&mut v);
        }
        let (sing, plur) = hour_words();
        push_unit(&mut v, hours, sing.as_slice(), plur.as_slice());
    }
    if minutes > 0 {
        if v.len() > 0 {
            push_comma(&mut v);
        }
        let (sing, plur) = minute_words();
        push_unit(&mut v, minutes, sing.as_slice(), plur.as_slice());
    }
    if v.len() == 0 {
        return less_than_a_minute_vec();
    }
    proof {
        assert(v@ =~= uptime_spec(uptime_seconds));
    }
    v
}

} // verus!
