//! The environment-backed and statistics-backed collectors: user and host
//! line, shell name, memory usage, root disk usage.
//!
//! The memory collector parses the bytes of the system memory-statistics
//! file; the storage collector computes from the block counts a filesystem
//! statistics call returned. Sizes are shown in binary gibibytes with two
//! decimal places, percentages rounded to the nearest integer.

use vstd::arithmetic::div_mod::{lemma_multiply_divide_le, lemma_multiply_divide_lt};
use vstd::arithmetic::mul::lemma_mul_inequality;
use vstd::prelude::*;

use crate::bytes::{
    copy_range, dec_rep, dec_value_sat, find_line_end, has_prefix, is_ws, line_end, push_bytes,
    push_u64, starts_with_at,
};
use crate::colors::Colors;

verus! {

/// The fallback user name: `unknown_user`.
pub open spec fn unknown_user_seq() -> Seq<u8> {
    seq![117u8, 110u8, 107u8, 110u8, 111u8, 119u8, 110u8, 95u8, 117u8, 115u8, 101u8, 114u8]
}

/// The fallback host name: `unknown_host`.
pub open spec fn unknown_host_seq() -> Seq<u8> {
    seq![117u8, 110u8, 107u8, 110u8, 111u8, 119u8, 110u8, 95u8, 104u8, 111u8, 115u8, 116u8]
}

/// The fallback shell name: `unknown_shell`.
pub open spec fn unknown_shell_seq() -> Seq<u8> {
    seq![117u8, 110u8, 107u8, 110u8, 111u8, 119u8, 110u8, 95u8, 115u8, 104u8, 101u8, 108u8, 108u8]
}

fn unknown_user_vec() -> (r: Vec<u8>)
    ensures
        r@ == unknown_user_seq(),
{
    let mut v: Vec<u8> = Vec::new();
    v.push(117);
    v.push(110);
    v.push(107);
    v.push(110);
    v.push(111);
    v.push(119);
    v.push(110);
    v.push(95);
    v.push(117);
    v.push(115);
    v.push(101);
    v.push(114);
    proof {
        assert(v@ =~= unknown_user_seq());
    }
    v
}

fn unknown_host_vec() -> (r: Vec<u8>)
    ensures
        r@ == unknown_host_seq(),
{
    let mut v: Vec<u8> = Vec::new();
    v.push(117);
    v.push(110);
    v.push(107);
    v.push(110);
    v.push(111);
    v.push(119);
    v.push(110);
    v.push(95);
    v.push(104);
    v.push(111);
    v.push(115);
    v.push(116);
    proof {
        assert(v@ =~= unknown_host_seq());
    }
    v
}

fn unknown_shell_vec() -> (r: Vec<u8>)
    ensures
        r@ == unknown_shell_seq(),
{
    let mut v: Vec<u8> = Vec::new();
    v.push(117);
    v.push(110);
    v.push(107);
    v.push(110);
    v.push(111);
    v.push(119);
    v.push(110);
    v.push(95);
    v.push(115);
    v.push(104);
    v.push(101);
    v.push(108);
    v.push(108);
    proof {
        assert(v@ =~= unknown_shell_seq());
    }
    v
}

/// The bytes of an optional value, or the given fallback when absent.
pub open spec fn value_or(o: Option<Vec<u8>>, fallback: Seq<u8>) -> Seq<u8> {
    match o {
        Option::Some(v) => v@,
        Option::None => fallback,
    }
}

/// The colorized user-at-host line:
/// `{yellow}{user}{red}@{green}{host}{reset}`.
pub open spec fn user_host_spec(
    username: Option<Vec<u8>>,
    hostname: Option<Vec<u8>>,
    c: &Colors,
) -> Seq<u8> {
    c.yellow@ + value_or(username, unknown_user_seq()) + c.red@ + seq![64u8] + c.green@
        + value_or(hostname, unknown_host_seq()) + c.reset@
}

/// Joins user name and host name into the colorized `user@host` line,
/// substituting the named fallbacks when either is absent or was not valid
/// text. Never fails.
pub fn get_username_and_hostname(
    username: Option<Vec<u8>>,
    hostname: Option<Vec<u8>>,
    colors: &Colors,
) -> (r: Vec<u8>)
    ensures
        r@ == user_host_spec(username, hostname, colors),
{
    let mut v: Vec<u8> = Vec::new();
    push_bytes(&mut v, colors.yellow.as_slice());
    match &username {
        Option::Some(u) => push_bytes(&mut v, u.as_slice()),
        Option::None => {
            let f = unknown_user_vec();
            push_bytes(&mut v, f.as_slice());
        },
    }
    push_bytes(&mut v, colors.red.as_slice());
    v.push(64);
    push_bytes(&mut v, colors.green.as_slice());
    match &hostname {
        Option::Some(h) => push_bytes(&mut v, h.as_slice()),
        Option::None => {
            let f = unknown_host_vec();
            push_bytes(&mut v, f.as_slice());
        },
    }
    push_bytes(&mut v, colors.reset.as_slice());
    proof {
        assert(v@ =~= user_host_spec(username, hostname, colors));
    }
    v
}

/// The index where the final path segment of `v` starts: just past the
/// last `/`, or zero when there is none.
pub open spec fn basename_start(v: Seq<u8>) -> int
    decreases v.len(),
{
    if v.len() == 0 {
        0
    } else if v[v.len() - 1] == 47 {
        v.len() as int
    } else {
        basename_start(v.drop_last())
    }
}

/// What the shell collector returns: the final path segment of the shell
/// path, or the fallback when the variable is absent.
pub open spec fn shell_spec(shell: Option<Vec<u8>>) -> Seq<u8> {
    match shell {
        Option::Some(v) => v@.subrange(basename_start(v@), v@.len() as int),
        Option::None => unknown_shell_seq(),
    }
}

/// Extracts the shell's name from the shell path: the part after the last
/// `/`, or the whole value when it has no `/`. Returns the fallback
/// `unknown_shell` when the variable is absent. Never fails.
pub fn get_shell(shell: Option<Vec<u8>>) -> (r: Vec<u8>)
    ensures
        r@ == shell_spec(shell),
{
    match &shell {
        Option::None => unknown_shell_vec(),
        Option::Some(v) => {
            let mut i: usize = v.len();
            proof {
                assert(v@.subrange(0, v@.len() as int) =~= v@);
            }
            while i > 0 && v[i - 1] != 47
                invariant
                    i <= v@.len(),
                    basename_start(v@) == basename_start(v@.subrange(0, i as int)),
                decreases i,
            {
                proof {
                    assert(v@.subrange(0, i as int).drop_last() =~= v@.subrange(0, i - 1));
                }
                i = i - 1;
            }
            proof {
                assert(v@.subrange(0, v@.len() as int) =~= v@);
                if i > 0 {
                    assert(basename_start(v@.subrange(0, i as int)) == i);
                }
            }
            copy_range(v.as_slice(), i, v.len())
        },
    }
}

/// The index of the first non-whitespace byte in `[from, lim)`, or `lim`.
pub open spec fn skip_ws(s: Seq<u8>, from: int, lim: int) -> int
    decreases lim - from,
{
    if 0 <= from < lim && from < s.len() && is_ws(s[from]) {
        skip_ws(s, from + 1, lim)
    } else {
        from
    }
}

proof fn lemma_skip_ws_step(s: Seq<u8>, from: int, i: int, lim: int)
    requires
        0 <= from <= i <= lim <= s.len(),
        forall|j: int| from <= j < i ==> is_ws(#[trigger] s[j]),
    ensures
        skip_ws(s, from, lim) == skip_ws(s, i, lim),
    decreases i - from,
{
    if from < i {
        lemma_skip_ws_step(s, from + 1, i, lim);
    }
}

/// The value of the first line at or after `off` that begins with `key`:
/// the decimal number after the key and any whitespace, capped at 64 bits.
/// Zero when no line matches or no digits follow the key.
pub open spec fn key_value_from(s: Seq<u8>, key: Seq<u8>, off: int) -> nat
    decreases s.len() - off,
    via key_value_from_decreases
{
    if !(0 <= off < s.len()) {
        0
    } else {
        let e = line_end(s, off);
        if has_prefix(s, off, key) && off + key.len() <= e {
            dec_value_sat(s.subrange(skip_ws(s, off + key.len(), e), e))
        } else {
            if e + 1 < s.len() {
                key_value_from(s, key, e + 1)
            } else {
                0
            }
        }
    }
}

#[via_fn]
proof fn key_value_from_decreases(s: Seq<u8>, key: Seq<u8>, off: int) {
    if 0 <= off < s.len() {
        crate::bytes::lemma_line_end_bounds(s, off);
    }
}

/// Scans `s` line by line for the first line beginning with `key` and
/// parses the decimal value after it.
fn find_key_value(s: &[u8], key: &[u8]) -> (r: u64)
    ensures
        r as nat == key_value_from(s@, key@, 0),
{
    let mut offset: usize = 0;
    while offset < s.len()
        invariant
            offset <= s@.len(),
            key_value_from(s@, key@, 0) == key_value_from(s@, key@, offset as int),
        decreases s@.len() - offset,
    {
        let e = find_line_end(s, offset);
        if starts_with_at(s, offset, key) && offset + key.len() <= e {
            let mut pos: usize = offset + key.len();
            let ghost vfrom = pos as int;
            while pos < e && (s[pos] == 32 || s[pos] == 9 || s[pos] == 10 || s[pos] == 12
                || s[pos] == 13)
                invariant
                    vfrom <= pos <= e <= s@.len(),
                    forall|j: int| vfrom <= j < pos ==> is_ws(#[trigger] s@[j]),
                decreases e - pos,
            {
                pos = pos + 1;
            }
            proof {
                lemma_skip_ws_step(s@, vfrom, pos as int, e as int);
                assert(skip_ws(s@, pos as int, e as int) == pos);
            }
            let tail = &s[pos..e];
            return crate::bytes::parse_u64_fast(tail);
        }
        if e < s.len() - 1 {
            offset = e + 1;
        } else {
            return 0;
        }
    }
    0
}

/// The key `MemTotal:`.
pub open spec fn mem_total_key() -> Seq<u8> {
    seq![77u8, 101u8, 109u8, 84u8, 111u8, 116u8, 97u8, 108u8, 58u8]
}

/// The key `MemAvailable:`.
pub open spec fn mem_available_key() -> Seq<u8> {
    seq![77u8, 101u8, 109u8, 65u8, 118u8, 97u8, 105u8, 108u8, 97u8, 98u8, 108u8, 101u8, 58u8]
}

fn mem_total_key_vec() -> (r: Vec<u8>)
    ensures
        r@ == mem_total_key(),
{
    let mut v: Vec<u8> = Vec::new();
    v.push(77);
    v.push(101);
    v.push(109);
    v.push(84);
    v.push(111);
    v.push(116);
    v.push(97);
    v.push(108);
    v.push(58);
    proof {
        assert(v@ =~= mem_total_key());
    }
    v
}

fn mem_available_key_vec() -> (r: Vec<u8>)
    ensures
        r@ == mem_available_key(),
{
    let mut v: Vec<u8> = Vec::new();
    v.push(77);
    v.push(101);
    v.push(109);
    v.push(65);
    v.push(118);
    v.push(97);
    v.push(105);
    v.push(108);
    v.push(97);
    v.push(98);
    v.push(108);
    v.push(101);
    v.push(58);
    proof {
        assert(v@ =~= mem_available_key());
    }
    v
}

/// Total memory in kilobytes as the statistics file reports it.
pub open spec fn mem_total_kb(s: Seq<u8>) -> nat {
    key_value_from(s, mem_total_key(), 0)
}

/// Available memory in kilobytes as the statistics file reports it.
pub open spec fn mem_available_kb(s: Seq<u8>) -> nat {
    key_value_from(s, mem_available_key(), 0)
}

/// Used amount out of a total: the difference, or zero when the reported
/// available amount exceeds the total.
pub open spec fn used_of(total: nat, available: nat) -> nat {
    if available <= total {
        (total - available) as nat
    } else {
        0
    }
}

/// Kilobytes as hundredths of a binary gibibyte, rounded to nearest.
pub open spec fn kb_gib_hundredths(kb: nat) -> nat {
    (kb * 100 + 524288) / 1048576
}

/// Bytes as hundredths of a binary gibibyte, rounded to nearest.
pub open spec fn bytes_gib_hundredths(b: nat) -> nat {
    (b * 100 + 536870912) / 1073741824
}

/// The percentage `used / total * 100`, rounded to the nearest integer;
/// zero when the total is zero, so an empty or missing source never
/// divides by zero.
pub open spec fn percent_of(used: nat, total: nat) -> nat {
    if total == 0 {
        0
    } else {
        (used * 200 + total) / (2 * total)
    }
}

fn kb_gib_h(kb: u64) -> (r: u64)
    ensures
        r as nat == kb_gib_hundredths(kb as nat),
{
    let wide: u128 = (kb as u128) * 100 + 524288;
    proof {
        lemma_multiply_divide_le(wide as int, 1048576, u64::MAX as int);
    }
    (wide / 1048576) as u64
}

fn bytes_gib_h(b: u64) -> (r: u64)
    ensures
        r as nat == bytes_gib_hundredths(b as nat),
{
    let wide: u128 = (b as u128) * 100 + 536870912;
    proof {
        lemma_multiply_divide_le(wide as int, 1073741824, u64::MAX as int);
    }
    (wide / 1073741824) as u64
}

fn percent(used: u64, total: u64) -> (r: u64)
    requires
        used <= total,
    ensures
        r as nat == percent_of(used as nat, total as nat),
        r <= 100,
{
    if total == 0 {
        0
    } else {
        let n: u128 = (used as u128) * 200 + (total as u128);
        let d: u128 = 2 * (total as u128);
        proof {
            assert(n < d * 101);
            lemma_multiply_divide_lt(n as int, d as int, 101);
        }
        (n / d) as u64
    }
}

/// `{used}.{xx} GiB / {total}.{xx} GiB ({cyan}{percent}%{reset})`, the
/// shared shape of the memory and storage lines; amounts are hundredths
/// of a gibibyte.
pub open spec fn usage_line_seq(used_h: nat, total_h: nat, pct: nat, c: &Colors) -> Seq<u8> {
    two_dec_seq(used_h) + seq![32u8, 71u8, 105u8, 66u8, 32u8, 47u8, 32u8] + two_dec_seq(total_h)
        + seq![32u8, 71u8, 105u8, 66u8, 32u8, 40u8] + c.cyan@ + dec_rep(pct) + seq![37u8]
        + c.reset@ + seq![41u8]
}

/// A count of hundredths shown with two decimal places: `{whole}.{frac:02}`.
pub open spec fn two_dec_seq(h: nat) -> Seq<u8> {
    dec_rep(h / 100) + seq![46u8, (48 + (h / 10) % 10) as u8, (48 + h % 10) as u8]
}

fn push_two_dec(dst: &mut Vec<u8>, h: u64)
    ensures
        final(dst)@ == old(dst)@ + two_dec_seq(h as nat),
{
    push_u64(dst, h / 100);
    dst.push(46);
    dst.push(48 + ((h / 10) % 10) as u8);
    dst.push(48 + (h % 10) as u8);
    proof {
        assert(dst@ =~= old(dst)@ + two_dec_seq(h as nat));
    }
}

fn format_usage(used_h: u64, total_h: u64, pct: u64, colors: &Colors) -> (r: Vec<u8>)
    ensures
        r@ == usage_line_seq(used_h as nat, total_h as nat, pct as nat, colors),
{
    let mut v: Vec<u8> = Vec::new();
    push_two_dec(&mut v, used_h);
    v.push(32);
    v.push(71);
    v.push(105);
    v.push(66);
    v.push(32);
    v.push(47);
    v.push(32);
    push_two_dec(&mut v, total_h);
    v.push(32);
    v.push(71);
    v.push(105);
    v.push(66);
    v.push(32);
    v.push(40);
    push_bytes(&mut v, colors.cyan.as_slice());
    push_u64(&mut v, pct);
    v.push(37);
    push_bytes(&mut v, colors.reset.as_slice());
    v.push(41);
    proof {
        assert(v@ =~= usage_line_seq(used_h as nat, total_h as nat, pct as nat, colors));
    }
    v
}

/// What the memory collector returns on a statistics file holding these
/// bytes.
pub open spec fn memory_usage_spec(s: Seq<u8>, c: &Colors) -> Seq<u8> {
    let total = mem_total_kb(s);
    let used = used_of(total, mem_available_kb(s));
    usage_line_seq(
        kb_gib_hundredths(used),
        kb_gib_hundredths(total),
        percent_of(used, total),
        c,
    )
}

/// Formats the memory usage from the bytes of the system memory-statistics
/// file: scans for the `MemTotal:` and `MemAvailable:` lines (each value in
/// kilobytes; a missing or malformed value counts as zero), computes
/// `used = total - available` and the used percentage, and shows both
/// amounts in gibibytes. An empty source yields a zero line, not an error.
pub fn get_memory_usage(meminfo: &[u8], colors: &Colors) -> (r: Vec<u8>)
    ensures
        r@ == memory_usage_spec(meminfo@, colors),
{
    let total_key = mem_total_key_vec();
    let available_key = mem_available_key_vec();
    let total_kb = find_key_value(meminfo, total_key.as_slice());
    let available_kb = find_key_value(meminfo, available_key.as_slice());
    let used_kb = if available_kb <= total_kb {
        total_kb - available_kb
    } else {
        0
    };
    let used_h = kb_gib_h(used_kb);
    let total_h = kb_gib_h(total_kb);
    let pct = percent(used_kb, total_kb);
    format_usage(used_h, total_h, pct, colors)
}

/// Law: an empty memory-statistics source yields the all-zero line — in
/// particular a percentage of zero, never a division fault. Both keys
/// parse as zero, so the amounts and the percentage are zero.
pub proof fn lemma_empty_meminfo_zero(s: Seq<u8>, c: &Colors)
    requires
        s.len() == 0,
    ensures
        mem_total_kb(s) == 0,
        mem_available_kb(s) == 0,
        percent_of(used_of(mem_total_kb(s), mem_available_kb(s)), mem_total_kb(s)) == 0,
        memory_usage_spec(s, c) == usage_line_seq(0, 0, 0, c),
{
    assert(key_value_from(s, mem_total_key(), 0) == 0);
    assert(key_value_from(s, mem_available_key(), 0) == 0);
    assert(kb_gib_hundredths(0) == 0);
}

/// What the storage collector returns for these block statistics.
pub open spec fn root_disk_usage_spec(
    block_size: u64,
    total_blocks: u64,
    available_blocks: u64,
    c: &Colors,
) -> Seq<u8> {
    let total = (block_size * total_blocks) as nat;
    let used = used_of(total, (block_size * available_blocks) as nat);
    usage_line_seq(
        bytes_gib_hundredths(used),
        bytes_gib_hundredths(total),
        percent_of(used, total),
        c,
    )
}

/// Formats the root filesystem usage from the block statistics a
/// filesystem-statistics call returned: `total = block_size * total_blocks`
/// bytes, `used = total - block_size * available_blocks` bytes, both shown
/// in gibibytes with the used percentage. The product must fit the word
/// size and the available count cannot exceed the total, as the statistics
/// facility guarantees.
pub fn get_root_disk_usage(
    block_size: u64,
    total_blocks: u64,
    available_blocks: u64,
    colors: &Colors,
) -> (r: Vec<u8>)
    requires
        block_size * total_blocks <= u64::MAX,
        available_blocks <= total_blocks,
    ensures
        r@ == root_disk_usage_spec(block_size, total_blocks, available_blocks, colors),
{
    proof {
        lemma_mul_inequality(
            available_blocks as int,
            total_blocks as int,
            block_size as int,
        );
    }
    let total_bytes = block_size * total_blocks;
    let available_bytes = block_size * available_blocks;
    let used_bytes = total_bytes - available_bytes;
    let used_h = bytes_gib_h(used_bytes);
    let total_h = bytes_gib_h(total_bytes);
    let pct = percent(used_bytes, total_bytes);
    format_usage(used_h, total_h, pct, colors)
}

} // verus!
