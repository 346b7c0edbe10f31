//! How an address is written as text: dotted decimal for IPv4, and for IPv6
//! lower-case hexadecimal groups with the first longest run of zero groups
//! (two or more) written as `::`.

use vstd::prelude::*;
use crate::addr::{IpAddress, Ipv4, Ipv6};

verus! {

/// The character for one digit, `0` to `9` and then `a` to `f`.
pub open spec fn digit_char(d: int) -> char {
    if d == 0 { '0' }
    else if d == 1 { '1' }
    else if d == 2 { '2' }
    else if d == 3 { '3' }
    else if d == 4 { '4' }
    else if d == 5 { '5' }
    else if d == 6 { '6' }
    else if d == 7 { '7' }
    else if d == 8 { '8' }
    else if d == 9 { '9' }
    else if d == 10 { 'a' }
    else if d == 11 { 'b' }
    else if d == 12 { 'c' }
    else if d == 13 { 'd' }
    else if d == 14 { 'e' }
    else { 'f' }
}

/// An octet in decimal, without leading zeros.
pub open spec fn dec_text(n: u8) -> Seq<char> {
    if n < 10 {
        seq![digit_char(n as int)]
    } else if n < 100 {
        seq![digit_char(n as int / 10), digit_char(n as int % 10)]
    } else {
        seq![digit_char(n as int / 100), digit_char((n as int / 10) % 10), digit_char(n as int % 10)]
    }
}

/// A group in lower-case hexadecimal, without leading zeros.
pub open spec fn hex_text(n: u16) -> Seq<char> {
    if n < 0x10 {
        seq![digit_char(n as int)]
    } else if n < 0x100 {
        seq![digit_char(n as int / 16), digit_char(n as int % 16)]
    } else if n < 0x1000 {
        seq![digit_char(n as int / 256), digit_char((n as int / 16) % 16), digit_char(n as int % 16)]
    } else {
        seq![
            digit_char(n as int / 4096),
            digit_char((n as int / 256) % 16),
            digit_char((n as int / 16) % 16),
            digit_char(n as int % 16),
        ]
    }
}

/// Dotted decimal: `a.b.c.d`.
pub open spec fn ipv4_text(ip: Ipv4) -> Seq<char> {
    dec_text(ip.a) + seq!['.'] + dec_text(ip.b) + seq!['.'] + dec_text(ip.c) + seq!['.']
        + dec_text(ip.d)
}

/// Groups in hexadecimal, joined by colons.
pub open spec fn group_text(segs: Seq<u16>) -> Seq<char>
    decreases segs.len(),
{
    if segs.len() == 0 {
        Seq::empty()
    } else if segs.len() == 1 {
        hex_text(segs[0])
    } else {
        group_text(segs.drop_last()) + seq![':'] + hex_text(segs.last())
    }
}

/// How many zero groups follow one another from `start` on.
pub open spec fn zero_run_len(segs: Seq<u16>, start: int) -> nat
    decreases segs.len() - start,
{
    if 0 <= start < segs.len() && segs[start] == 0 {
        1 + zero_run_len(segs, start + 1)
    } else {
        0
    }
}

/// Among the positions below `upto`, the first from which the run of zero
/// groups is longest.
pub open spec fn longest_run_start(segs: Seq<u16>, upto: int) -> int
    decreases upto,
{
    if upto <= 1 {
        0
    } else {
        let p = longest_run_start(segs, upto - 1);
        if zero_run_len(segs, upto - 1) > zero_run_len(segs, p) {
            upto - 1
        } else {
            p
        }
    }
}

/// What `longest_run_start` picks: a position below `upto` from which the run
/// of zero groups is as long as from any other position below `upto`, and
/// longer than from any position before it.
pub proof fn lemma_longest_run_is_first_longest(segs: Seq<u16>, upto: int, j: int)
    requires
        0 <= j < upto,
    ensures
        0 <= longest_run_start(segs, upto) < upto,
        zero_run_len(segs, j) <= zero_run_len(segs, longest_run_start(segs, upto)),
        j < longest_run_start(segs, upto) ==> zero_run_len(segs, j) < zero_run_len(
            segs,
            longest_run_start(segs, upto),
        ),
    decreases upto,
{
    if upto > 1 {
        lemma_longest_run_is_first_longest(segs, upto - 1, 0);
        if j < upto - 1 {
            lemma_longest_run_is_first_longest(segs, upto - 1, j);
        }
    }
}

/// The IPv4 address in the last two groups of an IPv4-mapped address.
pub open spec fn mapped_v4(ip: Ipv6) -> Ipv4 {
    Ipv4 {
        a: (ip.groups()[6] / 256) as u8,
        b: (ip.groups()[6] % 256) as u8,
        c: (ip.groups()[7] / 256) as u8,
        d: (ip.groups()[7] % 256) as u8,
    }
}

/// The text of an IPv6 address. An IPv4-mapped address is `::ffff:` and the
/// IPv4 address in dotted decimal. Otherwise the first longest run of two or
/// more zero groups is written as `::`, and the groups on either side of it
/// in hexadecimal, joined by colons.
pub open spec fn ipv6_text(ip: Ipv6) -> Seq<char> {
    let segs = ip.groups();
    let start = longest_run_start(segs, 8);
    let len = zero_run_len(segs, start);
    if ip.spec_is_v4_mapped() {
        seq![':', ':', 'f', 'f', 'f', 'f', ':'] + ipv4_text(mapped_v4(ip))
    } else if len > 1 {
        group_text(segs.subrange(0, start)) + seq![':', ':'] + group_text(
            segs.subrange(start + len, 8),
        )
    } else {
        group_text(segs)
    }
}

/// The text of an address of either family.
pub open spec fn ip_text(ip: IpAddress) -> Seq<char> {
    match ip {
        IpAddress::V4(v4) => ipv4_text(v4),
        IpAddress::V6(v6) => ipv6_text(v6),
    }
}

/// `String::push`: the character is appended and nothing else changes.
#[verifier::external_body]
pub(crate) fn push_char(out: &mut String, c: char)
    ensures
        final(out)@ == old(out)@.push(c),
{
    out.push(c)
}

/// `String::push_str`: the text is appended and nothing else changes.
#[verifier::external_body]
pub(crate) fn push_text(out: &mut String, t: &str)
    ensures
        final(out)@ == old(out)@ + t@,
{
    out.push_str(t)
}

fn digit(d: u8) -> (c: char)
    requires
        d < 16,
    ensures
        c == digit_char(d as int),
{
    if d == 0 { '0' }
    else if d == 1 { '1' }
    else if d == 2 { '2' }
    else if d == 3 { '3' }
    else if d == 4 { '4' }
    else if d == 5 { '5' }
    else if d == 6 { '6' }
    else if d == 7 { '7' }
    else if d == 8 { '8' }
    else if d == 9 { '9' }
    else if d == 10 { 'a' }
    else if d == 11 { 'b' }
    else if d == 12 { 'c' }
    else if d == 13 { 'd' }
    else if d == 14 { 'e' }
    else { 'f' }
}

fn write_dec(out: &mut String, n: u8)
    ensures
        final(out)@ == old(out)@ + dec_text(n),
{
    let ghost before = out@;
    if n >= 100 {
        push_char(out, digit(n / 100));
    }
    if n >= 10 {
        push_char(out, digit((n / 10) % 10));
    }
    push_char(out, digit(n % 10));
    assert(out@ =~= before + dec_text(n));
}

fn write_hex(out: &mut String, n: u16)
    ensures
        final(out)@ == old(out)@ + hex_text(n),
{
    let ghost before = out@;
    if n >= 0x1000 {
        push_char(out, digit((n / 4096) as u8));
    }
    if n >= 0x100 {
        push_char(out, digit(((n / 256) % 16) as u8));
    }
    if n >= 0x10 {
        push_char(out, digit(((n / 16) % 16) as u8));
    }
    push_char(out, digit((n % 16) as u8));
    assert(out@ =~= before + hex_text(n));
}

fn write_ipv4(out: &mut String, ip: Ipv4)
    ensures
        final(out)@ == old(out)@ + ipv4_text(ip),
{
    let ghost before = out@;
    write_dec(out, ip.a);
    push_char(out, '.');
    write_dec(out, ip.b);
    push_char(out, '.');
    write_dec(out, ip.c);
    push_char(out, '.');
    write_dec(out, ip.d);
    assert(out@ =~= before + ipv4_text(ip));
}

fn write_groups(out: &mut String, ip: &Ipv6, from: usize, to: usize)
    requires
        from <= to <= 8,
    ensures
        final(out)@ == old(out)@ + group_text(ip.groups().subrange(from as int, to as int)),
{
    let ghost before = out@;
    let ghost segs = ip.groups();
    let mut i: usize = from;
    assert(segs.subrange(from as int, from as int).len() == 0);
    assert(out@ =~= before + group_text(segs.subrange(from as int, i as int)));
    while i < to
        invariant
            from <= i <= to <= 8,
            segs == ip.groups(),
            segs.len() == 8,
            out@ == before + group_text(segs.subrange(from as int, i as int)),
        decreases to - i,
    {
        let ghost sofar = segs.subrange(from as int, i as int);
        let ghost next = segs.subrange(from as int, i as int + 1);
        assert(next.drop_last() =~= sofar);
        assert(next.last() == segs[i as int]);
        if i > from {
            push_char(out, ':');
        }
        write_hex(out, ip.segments[i]);
        assert(out@ =~= before + group_text(next));
        i = i + 1;
    }
}

fn run_len(ip: &Ipv6, start: usize) -> (n: usize)
    requires
        start <= 8,
    ensures
        n == zero_run_len(ip.groups(), start as int),
        start + n <= 8,
    decreases 8 - start,
{
    if start < 8 && ip.segments[start] == 0 {
        1 + run_len(ip, start + 1)
    } else {
        0
    }
}

fn find_longest_run(ip: &Ipv6) -> (r: (usize, usize))
    ensures
        r.0 == longest_run_start(ip.groups(), 8),
        r.1 == zero_run_len(ip.groups(), r.0 as int),
        r.0 + r.1 <= 8,
{
    let mut best: usize = 0;
    let mut best_len: usize = run_len(ip, 0);
    let mut i: usize = 1;
    while i < 8
        invariant
            1 <= i <= 8,
            best < i,
            best == longest_run_start(ip.groups(), i as int),
            best_len == zero_run_len(ip.groups(), best as int),
            best + best_len <= 8,
        decreases 8 - i,
    {
        let here: usize = run_len(ip, i);
        if here > best_len {
            best = i;
            best_len = here;
        }
        i = i + 1;
    }
    (best, best_len)
}

fn write_ipv6(out: &mut String, ip: &Ipv6)
    ensures
        final(out)@ == old(out)@ + ipv6_text(*ip),
{
    let ghost before = out@;
    if ip.is_v4_mapped() {
        let hi: u16 = ip.segments[6];
        let lo: u16 = ip.segments[7];
        let v4 = Ipv4::new((hi / 256) as u8, (hi % 256) as u8, (lo / 256) as u8, (lo % 256) as u8);
        assert(v4 == mapped_v4(*ip));
        push_char(out, ':');
        push_char(out, ':');
        push_char(out, 'f');
        push_char(out, 'f');
        push_char(out, 'f');
        push_char(out, 'f');
        push_char(out, ':');
        write_ipv4(out, v4);
        assert(out@ =~= before + ipv6_text(*ip));
    } else {
        let (start, len) = find_longest_run(ip);
        if len > 1 {
            write_groups(out, ip, 0, start);
            push_char(out, ':');
            push_char(out, ':');
            write_groups(out, ip, start + len, 8);
            assert(out@ =~= before + ipv6_text(*ip));
        } else {
            write_groups(out, ip, 0, 8);
            assert(ip.groups().subrange(0, 8) =~= ip.groups());
        }
    }
}

/// Appends the text of `ip` to `out`.
pub fn write_ip(out: &mut String, ip: &IpAddress)
    ensures
        final(out)@ == old(out)@ + ip_text(*ip),
{
    match ip {
        IpAddress::V4(v4) => write_ipv4(out, *v4),
        IpAddress::V6(v6) => write_ipv6(out, v6),
    }
}

/// The text of `ip` as a string of its own.
pub fn ip_to_string(ip: &IpAddress) -> (s: String)
    ensures
        s@ == ip_text(*ip),
{
    let mut s = String::new();
    write_ip(&mut s, ip);
    assert(s@ =~= ip_text(*ip));
    s
}

} // verus!
