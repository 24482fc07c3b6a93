//! Byte-string building blocks shared by the collectors: appending, slicing,
//! decimal rendering and decimal parsing, each with an exact contract.

use vstd::prelude::*;

verus! {

/// Appends all of `src` to `dst`.
pub fn push_bytes(dst: &mut Vec<u8>, src: &[u8])
    ensures
        final(dst)@ == old(dst)@ + src@,
{
    let mut i: usize = 0;
    while i < src.len()
        invariant
            i <= src@.len(),
            dst@ == old(dst)@ + src@.subrange(0, i as int),
        decreases src@.len() - i,
    {
        dst.push(src[i]);
        i = i + 1;
        proof {
            assert(old(dst)@ + src@.subrange(0, i as int)
                =~= (old(dst)@ + src@.subrange(0, i - 1)).push(src@[i - 1]));
        }
    }
    proof {
        assert(src@.subrange(0, src@.len() as int) =~= src@);
    }
}

/// Copies the bytes of `s` between `from` and `to` into a fresh vector.
pub fn copy_range(s: &[u8], from: usize, to: usize) -> (r: Vec<u8>)
    requires
        from <= to <= s@.len(),
    ensures
        r@ == s@.subrange(from as int, to as int),
{
    let mut r: Vec<u8> = Vec::new();
    let mut i: usize = from;
    while i < to
        invariant
            from <= i <= to <= s@.len(),
            r@ == s@.subrange(from as int, i as int),
        decreases to - i,
    {
        r.push(s[i]);
        i = i + 1;
        proof {
            assert(s@.subrange(from as int, i as int)
                =~= s@.subrange(from as int, i - 1).push(s@[i - 1]));
        }
    }
    r
}

/// The decimal digits of `n`, most significant first; empty when `n` is zero.
pub open spec fn dec_digits(n: nat) -> Seq<u8>
    decreases n,
{
    if n == 0 {
        Seq::empty()
    } else {
        dec_digits(n / 10) + seq![(48 + n % 10) as u8]
    }
}

/// The usual decimal rendering of `n`: `"0"` for zero, no leading zeros otherwise.
pub open spec fn dec_rep(n: nat) -> Seq<u8> {
    if n == 0 {
        seq![48u8]
    } else {
        dec_digits(n)
    }
}

fn push_digits(dst: &mut Vec<u8>, n: u64)
    requires
        n > 0,
    ensures
        final(dst)@ == old(dst)@ + dec_digits(n as nat),
    decreases n,
{
    if n >= 10 {
        push_digits(dst, n / 10);
    }
    let ghost mid = dst@;
    dst.push((n % 10) as u8 + 48);
    proof {
        assert(mid == old(dst)@ + dec_digits((n / 10) as nat)) by {
            if n < 10 {
                assert(dec_digits((n / 10) as nat) == Seq::<u8>::empty());
                assert(mid =~= old(dst)@ + dec_digits((n / 10) as nat));
            }
        }
        assert(dec_digits(n as nat) == dec_digits((n / 10) as nat) + seq![(48 + n % 10) as u8]);
        assert(dst@ =~= old(dst)@ + dec_digits(n as nat));
    }
}

/// Appends the decimal rendering of `n` to `dst`.
pub fn push_u64(dst: &mut Vec<u8>, n: u64)
    ensures
        final(dst)@ == old(dst)@ + dec_rep(n as nat),
{
    if n == 0 {
        dst.push(48);
        proof {
            assert(dst@ =~= old(dst)@ + dec_rep(0));
        }
    } else {
        push_digits(dst, n);
    }
}

/// Whether `b` is an ASCII whitespace byte (space, tab, newline, form
/// feed, carriage return).
pub open spec fn is_ws(b: u8) -> bool {
    b == 32 || b == 9 || b == 10 || b == 12 || b == 13
}

/// Whether `b` is an ASCII decimal digit.
pub open spec fn is_digit(b: u8) -> bool {
    48 <= b <= 57
}

/// The index just past the run of digits that starts at `from`.
pub open spec fn digits_end(s: Seq<u8>, from: int) -> int
    decreases s.len() - from,
{
    if from < 0 || from >= s.len() || !is_digit(s[from]) {
        from
    } else {
        digits_end(s, from + 1)
    }
}

/// The value of the digits of `s` strictly before index `n`.
pub open spec fn dec_val_prefix(s: Seq<u8>, n: int) -> nat
    decreases n,
{
    if n <= 0 {
        0
    } else {
        dec_val_prefix(s, n - 1) * 10 + (s[n - 1] - 48) as nat
    }
}

/// The numeric value of the run of digits that `s` begins with.
pub open spec fn dec_value(s: Seq<u8>) -> nat {
    dec_val_prefix(s, digits_end(s, 0))
}

/// `dec_value`, capped at the largest 64-bit value.
pub open spec fn dec_value_sat(s: Seq<u8>) -> nat {
    if dec_value(s) <= u64::MAX {
        dec_value(s)
    } else {
        u64::MAX as nat
    }
}

/// Parses the run of ASCII digits that `s` begins with as a decimal
/// number; anything from the first non-digit on is ignored, so an empty
/// or digit-free input parses as zero. A value too large for 64 bits is
/// capped at the largest representable one.
pub fn parse_u64_fast(s: &[u8]) -> (r: u64)
    ensures
        r as nat == dec_value_sat(s@),
{
    let mut r: u64 = 0;
    let mut i: usize = 0;
    while i < s.len() && 48 <= s[i] && s[i] <= 57
        invariant
            0 <= i <= s@.len(),
            forall|j: int| 0 <= j < i ==> is_digit(#[trigger] s@[j]),
            digits_end(s@, 0) == digits_end(s@, i as int),
            dec_val_prefix(s@, i as int) <= u64::MAX ==> r as nat == dec_val_prefix(s@, i as int),
            dec_val_prefix(s@, i as int) > u64::MAX ==> r == u64::MAX,
        decreases s@.len() - i,
    {
        let b = s[i];
        let wide: u128 = (r as u128) * 10 + ((b - 48) as u128);
        proof {
            assert(dec_val_prefix(s@, i + 1)
                == dec_val_prefix(s@, i as int) * 10 + (s@[i as int] - 48) as nat);
            if dec_val_prefix(s@, i as int) > u64::MAX {
                assert(dec_val_prefix(s@, i as int) * 10 >= dec_val_prefix(s@, i as int));
            }
        }
        if wide > u64::MAX as u128 {
            r = u64::MAX;
        } else {
            r = wide as u64;
        }
        i = i + 1;
    }
    proof {
        assert(digits_end(s@, i as int) == i);
        assert(dec_value(s@) == dec_val_prefix(s@, i as int));
        if dec_val_prefix(s@, i as int) > u64::MAX {
            assert(r == u64::MAX);
        }
    }
    r
}

/// The index of the first newline at or after `from`, or the length of `s`.
pub open spec fn line_end(s: Seq<u8>, from: int) -> int
    decreases s.len() - from,
{
    if from < 0 || from >= s.len() {
        s.len() as int
    } else if s[from] == 10 {
        from
    } else {
        line_end(s, from + 1)
    }
}

proof fn lemma_line_end_step(s: Seq<u8>, from: int, i: int)
    requires
        0 <= from <= i <= s.len(),
        forall|j: int| from <= j < i ==> #[trigger] s[j] != 10,
    ensures
        line_end(s, from) == line_end(s, i),
    decreases i - from,
{
    if from < i {
        lemma_line_end_step(s, from + 1, i);
    }
}

/// Basic facts about `line_end`: it stays within `[from, len]`, the byte
/// there (if any) is a newline, and no byte before it is one.
pub proof fn lemma_line_end_bounds(s: Seq<u8>, from: int)
    requires
        0 <= from <= s.len(),
    ensures
        from <= line_end(s, from) <= s.len(),
        line_end(s, from) < s.len() ==> s[line_end(s, from)] == 10,
        forall|j: int| from <= j < line_end(s, from) ==> #[trigger] s[j] != 10,
    decreases s.len() - from,
{
    if from < s.len() && s[from] != 10 {
        lemma_line_end_bounds(s, from + 1);
    }
}

/// Finds the first newline at or after `from`, or the end of `s`.
pub fn find_line_end(s: &[u8], from: usize) -> (r: usize)
    requires
        from <= s@.len(),
    ensures
        r == line_end(s@, from as int),
        from <= r <= s@.len(),
{
    let mut i: usize = from;
    while i < s.len()
        invariant
            from <= i <= s@.len(),
            forall|j: int| from <= j < i ==> #[trigger] s@[j] != 10,
        decreases s@.len() - i,
    {
        if s[i] == 10 {
            proof {
                lemma_line_end_step(s@, from as int, i as int);
            }
            return i;
        }
        i = i + 1;
    }
    proof {
        lemma_line_end_step(s@, from as int, i as int);
    }
    i
}

/// Whether `s` begins with `p` at offset `at`.
pub open spec fn has_prefix(s: Seq<u8>, at: int, p: Seq<u8>) -> bool {
    0 <= at && at + p.len() <= s.len() && s.subrange(at, at + p.len()) == p
}

/// Compares the bytes of `s` starting at `at` against `p`.
pub fn starts_with_at(s: &[u8], at: usize, p: &[u8]) -> (r: bool)
    requires
        at <= s@.len(),
    ensures
        r == has_prefix(s@, at as int, p@),
{
    if s.len() - at < p.len() {
        return false;
    }
    let mut i: usize = 0;
    while i < p.len()
        invariant
            i <= p@.len(),
            at + p@.len() <= s@.len(),
            s@.len() <= usize::MAX,
            forall|j: int| 0 <= j < i ==> s@[at + j] == p@[j],
        decreases p@.len() - i,
    {
        if s[at + i] != p[i] {
            proof {
                assert(s@.subrange(at as int, at + p@.len())[i as int] == s@[at + i]);
            }
            return false;
        }
        i = i + 1;
    }
    proof {
        assert(s@.subrange(at as int, at + p@.len()) =~= p@);
    }
    true
}

} // verus!
