//! Reading an announcement back: split at each newline, and each line at its
//! first space. What is read is what was written.

use vstd::prelude::*;
use crate::addr::{IpAddress, Ipv4, Ipv6};
use crate::announce::{announcement_text, line_text};
use crate::scan::InterfaceAddress;
use crate::text::{
    dec_text, digit_char, group_text, hex_text, ip_text, ipv4_text, ipv6_text, mapped_v4,
};

verus! {

/// The position of the first `c` in `s`; the length of `s` where it has none.
pub open spec fn first_index(s: Seq<char>, c: char) -> nat
    decreases s.len(),
{
    if s.len() == 0 || s[0] == c {
        0
    } else {
        1 + first_index(s.drop_first(), c)
    }
}

/// A line split at its first space. A line without a space is all name.
pub open spec fn decode_line(line: Seq<char>) -> (Seq<char>, Seq<char>) {
    let at = first_index(line, ' ') as int;
    if at < line.len() {
        (line.subrange(0, at), line.subrange(at + 1, line.len() as int))
    } else {
        (line, Seq::empty())
    }
}

/// The pairs of name and address text that a payload holds, one for each
/// line that ends in a newline.
pub open spec fn decode(text: Seq<char>) -> Seq<(Seq<char>, Seq<char>)>
    decreases text.len(),
{
    let end = first_index(text, '\n') as int;
    if end >= text.len() {
        Seq::empty()
    } else {
        seq![decode_line(text.subrange(0, end))] + decode(
            text.subrange(end + 1, text.len() as int),
        )
    }
}

/// The pairs of name and address text that an announcement is built from.
pub open spec fn pairs_of(addrs: Seq<InterfaceAddress>) -> Seq<(Seq<char>, Seq<char>)> {
    Seq::new(addrs.len(), |i: int| (addrs[i].interface_name@, ip_text(addrs[i].ip)))
}

/// Text with neither a space nor a newline in it.
pub open spec fn unbroken(s: Seq<char>) -> bool {
    forall|i: int| 0 <= i < s.len() ==> s[i] != ' ' && s[i] != '\n'
}

/// The first occurrence is where the character stands with none before it.
pub proof fn lemma_first_index(s: Seq<char>, c: char, k: int)
    requires
        0 <= k < s.len(),
        s[k] == c,
        forall|j: int| 0 <= j < k ==> s[j] != c,
    ensures
        first_index(s, c) == k,
    decreases k,
{
    if k > 0 {
        let rest = s.drop_first();
        assert(rest[k - 1] == s[k]);
        assert forall|j: int| 0 <= j < k - 1 implies rest[j] != c by {
            assert(rest[j] == s[j + 1]);
        }
        lemma_first_index(rest, c, k - 1);
    }
}

proof fn lemma_digit_unbroken(d: int)
    ensures
        digit_char(d) != ' ',
        digit_char(d) != '\n',
{
}

proof fn lemma_dec_unbroken(n: u8)
    ensures
        unbroken(dec_text(n)),
{
    lemma_digit_unbroken(n as int);
    lemma_digit_unbroken(n as int / 10);
    lemma_digit_unbroken(n as int % 10);
    lemma_digit_unbroken(n as int / 100);
    lemma_digit_unbroken((n as int / 10) % 10);
}

proof fn lemma_hex_unbroken(n: u16)
    ensures
        unbroken(hex_text(n)),
{
    lemma_digit_unbroken(n as int);
    lemma_digit_unbroken(n as int / 16);
    lemma_digit_unbroken(n as int % 16);
    lemma_digit_unbroken(n as int / 256);
    lemma_digit_unbroken((n as int / 16) % 16);
    lemma_digit_unbroken(n as int / 4096);
    lemma_digit_unbroken((n as int / 256) % 16);
}

proof fn lemma_ipv4_unbroken(ip: Ipv4)
    ensures
        unbroken(ipv4_text(ip)),
{
    lemma_dec_unbroken(ip.a);
    lemma_dec_unbroken(ip.b);
    lemma_dec_unbroken(ip.c);
    lemma_dec_unbroken(ip.d);
}

proof fn lemma_groups_unbroken(segs: Seq<u16>)
    ensures
        unbroken(group_text(segs)),
    decreases segs.len(),
{
    if segs.len() == 1 {
        lemma_hex_unbroken(segs[0]);
    } else if segs.len() > 1 {
        lemma_groups_unbroken(segs.drop_last());
        lemma_hex_unbroken(segs.last());
    }
}

proof fn lemma_ipv6_unbroken(ip: Ipv6)
    ensures
        unbroken(ipv6_text(ip)),
{
    let segs = ip.groups();
    lemma_ipv4_unbroken(mapped_v4(ip));
    lemma_groups_unbroken(segs);
    if !ip.spec_is_v4_mapped() {
        let start = crate::text::longest_run_start(segs, 8);
        let len = crate::text::zero_run_len(segs, start);
        if len > 1 {
            lemma_groups_unbroken(segs.subrange(0, start));
            lemma_groups_unbroken(segs.subrange(start + len, 8));
        }
    }
}

/// The text of an address holds neither a space nor a newline.
pub proof fn lemma_ip_text_unbroken(ip: IpAddress)
    ensures
        unbroken(ip_text(ip)),
{
    match ip {
        IpAddress::V4(v4) => lemma_ipv4_unbroken(v4),
        IpAddress::V6(v6) => lemma_ipv6_unbroken(v6),
    }
}

/// One line in front of a payload is read back as its pair, and the rest of
/// the payload after it.
pub proof fn lemma_decode_line(name: Seq<char>, ip: IpAddress, rest: Seq<char>)
    requires
        unbroken(name),
    ensures
        decode(line_text(name, ip) + rest) == seq![(name, ip_text(ip))] + decode(rest),
{
    let ipt = ip_text(ip);
    lemma_ip_text_unbroken(ip);
    let line = line_text(name, ip);
    let text = line + rest;
    let end = name.len() + 1 + ipt.len();
    assert(line.len() == end + 1);
    assert forall|j: int| 0 <= j < end implies text[j] != '\n' by {
        if j < name.len() {
            assert(text[j] == name[j]);
        } else if j == name.len() {
            assert(text[j] == ' ');
        } else {
            assert(text[j] == ipt[j - name.len() - 1]);
        }
    }
    assert(text[end as int] == '\n');
    lemma_first_index(text, '\n', end as int);
    let body = text.subrange(0, end as int);
    assert(body =~= name + seq![' '] + ipt);
    assert forall|j: int| 0 <= j < name.len() implies body[j] != ' ' by {
        assert(body[j] == name[j]);
    }
    assert(body[name.len() as int] == ' ');
    lemma_first_index(body, ' ', name.len() as int);
    assert(body.subrange(0, name.len() as int) =~= name);
    assert(body.subrange(name.len() as int + 1, body.len() as int) =~= ipt);
    assert(decode_line(body) == (name, ipt));
    assert(text.subrange(end as int + 1, text.len() as int) =~= rest);
}

/// Reading an announcement back gives the names and address texts it was
/// built from, in the same order and one for each address, as long as no
/// name holds a space or a newline.
pub proof fn law_decode_inverts_build(addrs: Seq<InterfaceAddress>)
    requires
        forall|i: int| 0 <= i < addrs.len() ==> unbroken(#[trigger] addrs[i].interface_name@),
    ensures
        decode(announcement_text(addrs)) == pairs_of(addrs),
        decode(announcement_text(addrs)).len() == addrs.len(),
    decreases addrs.len(),
{
    if addrs.len() == 0 {
        assert(decode(Seq::<char>::empty()) =~= Seq::empty());
        assert(pairs_of(addrs) =~= Seq::empty());
    } else {
        let rest = addrs.drop_first();
        assert forall|i: int| 0 <= i < rest.len() implies unbroken(
            #[trigger] rest[i].interface_name@,
        ) by {
            assert(rest[i] == addrs[i + 1]);
        }
        law_decode_inverts_build(rest);
        lemma_decode_line(addrs.first().interface_name@, addrs.first().ip, announcement_text(rest));
        assert(pairs_of(addrs) =~= seq![(addrs.first().interface_name@, ip_text(addrs.first().ip))]
            + pairs_of(rest));
    }
}

} // verus!
