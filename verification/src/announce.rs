//! The announcement: one line per announced address, `<name> <ip>\n`, in
//! scan order.

use vstd::prelude::*;
use crate::addr::IpAddress;
use crate::scan::InterfaceAddress;
use crate::text::{ip_text, push_char, push_text, write_ip};

verus! {

/// One line of the announcement: the name, a space, the address, a newline.
pub open spec fn line_text(name: Seq<char>, ip: IpAddress) -> Seq<char> {
    name + seq![' '] + ip_text(ip) + seq!['\n']
}

/// The whole announcement: the lines of the addresses, first to last.
pub open spec fn announcement_text(addrs: Seq<InterfaceAddress>) -> Seq<char>
    decreases addrs.len(),
{
    if addrs.len() == 0 {
        Seq::empty()
    } else {
        line_text(addrs.first().interface_name@, addrs.first().ip) + announcement_text(
            addrs.drop_first(),
        )
    }
}

/// An address added at the end adds its line at the end.
pub proof fn lemma_announcement_push(addrs: Seq<InterfaceAddress>, last: InterfaceAddress)
    ensures
        announcement_text(addrs.push(last)) == announcement_text(addrs) + line_text(
            last.interface_name@,
            last.ip,
        ),
    decreases addrs.len(),
{
    let line = line_text(last.interface_name@, last.ip);
    if addrs.len() == 0 {
        assert(addrs.push(last).drop_first() =~= Seq::<InterfaceAddress>::empty());
        assert(addrs.push(last).first() == last);
        assert(announcement_text(Seq::<InterfaceAddress>::empty()) =~= Seq::<char>::empty());
        assert(announcement_text(addrs) =~= Seq::<char>::empty());
        assert(announcement_text(addrs.push(last)) =~= line + Seq::<char>::empty());
        assert(announcement_text(addrs.push(last)) =~= announcement_text(addrs) + line);
    } else {
        let head = line_text(addrs.first().interface_name@, addrs.first().ip);
        assert(addrs.push(last).drop_first() =~= addrs.drop_first().push(last));
        lemma_announcement_push(addrs.drop_first(), last);
        assert(announcement_text(addrs.push(last)) =~= head + (announcement_text(
            addrs.drop_first(),
        ) + line));
        assert(announcement_text(addrs.push(last)) =~= announcement_text(addrs) + line);
    }
}

/// Builds the announcement. Every address given is written, whatever its
/// family; no address given makes the empty announcement.
pub fn build(addrs: &Vec<InterfaceAddress>) -> (msg: String)
    ensures
        msg@ == announcement_text(addrs@),
{
    let mut msg = String::new();
    let mut i: usize = 0;
    assert(addrs@.take(0) =~= Seq::empty());
    while i < addrs.len()
        invariant
            i <= addrs.len(),
            msg@ == announcement_text(addrs@.take(i as int)),
        decreases addrs.len() - i,
    {
        let ghost before = msg@;
        let a = &addrs[i];
        push_text(&mut msg, a.interface_name.as_str());
        push_char(&mut msg, ' ');
        write_ip(&mut msg, &a.ip);
        push_char(&mut msg, '\n');
        proof {
            assert(msg@ =~= before + line_text(a.interface_name@, a.ip));
            lemma_announcement_push(addrs@.take(i as int), *a);
            assert(addrs@.take(i as int).push(*a) =~= addrs@.take(i as int + 1));
        }
        i = i + 1;
    }
    assert(addrs@.take(addrs.len() as int) =~= addrs@);
    msg
}

} // verus!
