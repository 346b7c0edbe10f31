//! The interface scanner: which of the addresses that the system reports are
//! announced, and which of them each channel sends from.

use vstd::prelude::*;
use crate::addr::{IpAddress, Ipv4, Ipv6};

verus! {

/// One address of one interface, as the system reports it.
#[allow(inconsistent_fields)]
#[derive(Clone, Debug, PartialEq, Eq)]
pub enum RawAddr {
    V4 { ip: Ipv4, broadcast: Option<Ipv4> },
    V6 { ip: Ipv6 },
}

/// An interface's name with one of its addresses, as the system reports it.
#[derive(Clone, Debug, PartialEq, Eq)]
pub struct RawInterface {
    pub name: String,
    pub addr: RawAddr,
}

/// An address that is announced. `broadcast_address` is present only on an
/// IPv4 entry.
#[derive(Clone, Debug, PartialEq, Eq)]
pub struct InterfaceAddress {
    pub interface_name: String,
    pub ip: IpAddress,
    pub broadcast_address: Option<Ipv4>,
}

/// The system could not list its interfaces.
#[derive(Clone, Debug, PartialEq, Eq)]
pub struct DiscoveryError {
    pub reason: String,
}

/// The three ways an announcement leaves the host.
#[derive(Clone, Copy, Debug, PartialEq, Eq, Structural)]
pub enum Channel {
    Ipv4Multicast,
    Ipv4Broadcast,
    Ipv6Multicast,
}

/// Whether a reported address is announced. An IPv4 address needs a
/// broadcast address and must not be `127.0.0.1`; an IPv6 address must be
/// neither the loopback address nor link-local.
pub open spec fn passes(raw: RawInterface) -> bool {
    match raw.addr {
        RawAddr::V4 { ip, broadcast } => broadcast is Some && !ip.spec_is_localhost(),
        RawAddr::V6 { ip } => !ip.spec_is_loopback() && !ip.spec_is_link_local(),
    }
}

/// The announced form of a reported address.
pub open spec fn admitted(raw: RawInterface) -> InterfaceAddress {
    match raw.addr {
        RawAddr::V4 { ip, broadcast } => InterfaceAddress {
            interface_name: raw.name,
            ip: IpAddress::V4(ip),
            broadcast_address: broadcast,
        },
        RawAddr::V6 { ip } => InterfaceAddress {
            interface_name: raw.name,
            ip: IpAddress::V6(ip),
            broadcast_address: None,
        },
    }
}

/// The reported addresses that pass, in the order reported.
pub open spec fn survivors(raw: Seq<RawInterface>) -> Seq<InterfaceAddress>
    decreases raw.len(),
{
    if raw.len() == 0 {
        Seq::empty()
    } else if passes(raw.last()) {
        survivors(raw.drop_last()).push(admitted(raw.last()))
    } else {
        survivors(raw.drop_last())
    }
}

/// Whether a channel sends from an address: the IPv4 channels from IPv4
/// addresses, the IPv6 channel from IPv6 addresses.
pub open spec fn eligible(addr: InterfaceAddress, channel: Channel) -> bool {
    match channel {
        Channel::Ipv4Multicast => addr.ip is V4,
        Channel::Ipv4Broadcast => addr.ip is V4,
        Channel::Ipv6Multicast => addr.ip is V6,
    }
}

/// The addresses a channel sends from, in scan order.
pub open spec fn senders(addrs: Seq<InterfaceAddress>, channel: Channel) -> Seq<InterfaceAddress>
    decreases addrs.len(),
{
    if addrs.len() == 0 {
        Seq::empty()
    } else if eligible(addrs.last(), channel) {
        senders(addrs.drop_last(), channel).push(addrs.last())
    } else {
        senders(addrs.drop_last(), channel)
    }
}

impl InterfaceAddress {
    /// A copy, equal to `self` in every field.
    pub fn duplicate(&self) -> (r: InterfaceAddress)
        ensures
            r == *self,
    {
        InterfaceAddress {
            interface_name: self.interface_name.clone(),
            ip: self.ip,
            broadcast_address: self.broadcast_address,
        }
    }
}

/// Decides on one reported address.
pub fn classify(raw: &RawInterface) -> (r: Option<InterfaceAddress>)
    ensures
        r == (if passes(*raw) {
            Some(admitted(*raw))
        } else {
            None
        }),
{
    match raw.addr {
        RawAddr::V4 { ip, broadcast } => {
            if broadcast.is_none() || ip.is_localhost() {
                None
            } else {
                Some(
                    InterfaceAddress {
                        interface_name: raw.name.clone(),
                        ip: IpAddress::V4(ip),
                        broadcast_address: broadcast,
                    },
                )
            }
        },
        RawAddr::V6 { ip } => {
            if ip.is_loopback() || ip.is_link_local() {
                None
            } else {
                Some(
                    InterfaceAddress {
                        interface_name: raw.name.clone(),
                        ip: IpAddress::V6(ip),
                        broadcast_address: None,
                    },
                )
            }
        },
    }
}

/// Keeps the reported addresses that pass, in the order reported.
pub fn filter_addresses(raw: &Vec<RawInterface>) -> (out: Vec<InterfaceAddress>)
    ensures
        out@ == survivors(raw@),
{
    let mut out: Vec<InterfaceAddress> = Vec::new();
    let mut i: usize = 0;
    assert(raw@.take(0) =~= Seq::empty());
    while i < raw.len()
        invariant
            i <= raw.len(),
            out@ == survivors(raw@.take(i as int)),
        decreases raw.len() - i,
    {
        assert(raw@.take(i as int + 1).drop_last() =~= raw@.take(i as int));
        assert(raw@.take(i as int + 1).last() == raw@[i as int]);
        match classify(&raw[i]) {
            Some(a) => out.push(a),
            None => {},
        }
        i = i + 1;
    }
    assert(raw@.take(raw.len() as int) =~= raw@);
    out
}

/// One scan: the interface query's outcome, filtered. A failed query fails
/// the scan with the same error; a query that succeeded never does.
pub fn scan(query: Result<Vec<RawInterface>, DiscoveryError>) -> (r: Result<
    Vec<InterfaceAddress>,
    DiscoveryError,
>)
    ensures
        match query {
            Ok(raw) => r is Ok && r->Ok_0@ == survivors(raw@),
            Err(e) => r == Err::<Vec<InterfaceAddress>, DiscoveryError>(e),
        },
{
    match query {
        Ok(raw) => Ok(filter_addresses(&raw)),
        Err(e) => Err(e),
    }
}

/// An entry of the list that `get_if_addrs` returns.
#[verifier::external_type_specification]
#[verifier::external_body]
pub struct ExInterface(get_if_addrs::Interface);

/// The error of a failed system call.
#[verifier::external_type_specification]
#[verifier::external_body]
pub struct ExIoError(std::io::Error);

/// `get_if_addrs::get_if_addrs`: the addresses of this host's interfaces, or
/// the system's error. What comes back depends on the host, so nothing is
/// claimed of it.
#[verifier::external_body]
fn list_interfaces() -> (r: Result<Vec<get_if_addrs::Interface>, std::io::Error>) {
    get_if_addrs::get_if_addrs()
}

/// Reads the fields `name` and `addr` of a `get_if_addrs::Interface` into
/// plain values: the name as it is, each address by its octets or groups.
/// Nothing is claimed of what they hold.
#[verifier::external_body]
fn raw_interface(entry: &get_if_addrs::Interface) -> (r: RawInterface) {
    let addr = match &entry.addr {
        get_if_addrs::IfAddr::V4(a) => RawAddr::V4 {
            ip: Ipv4::from_octets(a.ip.octets()),
            broadcast: match a.broadcast {
                Some(b) => Some(Ipv4::from_octets(b.octets())),
                None => None,
            },
        },
        get_if_addrs::IfAddr::V6(a) => RawAddr::V6 { ip: Ipv6::from_segments(a.ip.segments()) },
    };
    RawInterface { name: entry.name.clone(), addr }
}

/// `std::io::Error`'s `to_string`: the error in words. Nothing is claimed of
/// the text.
#[verifier::external_body]
fn error_text(e: &std::io::Error) -> (s: String) {
    e.to_string()
}

fn query_host() -> (r: Result<Vec<RawInterface>, DiscoveryError>) {
    match list_interfaces() {
        Ok(list) => {
            let mut raw: Vec<RawInterface> = Vec::new();
            let mut i: usize = 0;
            while i < list.len()
                invariant
                    i <= list.len(),
                    raw.len() == i,
                decreases list.len() - i,
            {
                raw.push(raw_interface(&list[i]));
                i = i + 1;
            }
            Ok(raw)
        },
        Err(e) => Err(DiscoveryError { reason: error_text(&e) }),
    }
}

/// One scan of this host: asks the system for the interfaces' addresses and
/// keeps those that pass. Whatever the system reports, what is returned is
/// what `survivors` keeps of some list of reported addresses.
pub fn scan_host() -> (r: Result<Vec<InterfaceAddress>, DiscoveryError>)
    ensures
        r matches Ok(v) ==> exists|raw: Seq<RawInterface>| v@ == survivors(raw),
{
    match query_host() {
        Ok(raw) => {
            let kept = filter_addresses(&raw);
            assert(kept@ == survivors(raw@));
            Ok(kept)
        },
        Err(e) => Err(e),
    }
}

/// The addresses that `channel` sends from, in scan order.
pub fn sender_set(addrs: &Vec<InterfaceAddress>, channel: Channel) -> (out: Vec<InterfaceAddress>)
    ensures
        out@ == senders(addrs@, channel),
{
    let mut out: Vec<InterfaceAddress> = Vec::new();
    let mut i: usize = 0;
    assert(addrs@.take(0) =~= Seq::empty());
    while i < addrs.len()
        invariant
            i <= addrs.len(),
            out@ == senders(addrs@.take(i as int), channel),
        decreases addrs.len() - i,
    {
        assert(addrs@.take(i as int + 1).drop_last() =~= addrs@.take(i as int));
        assert(addrs@.take(i as int + 1).last() == addrs@[i as int]);
        let a = &addrs[i];
        let fits = match channel {
            Channel::Ipv4Multicast => a.ip.is_v4(),
            Channel::Ipv4Broadcast => a.ip.is_v4(),
            Channel::Ipv6Multicast => a.ip.is_v6(),
        };
        if fits {
            out.push(a.duplicate());
        }
        i = i + 1;
    }
    assert(addrs@.take(addrs.len() as int) =~= addrs@);
    out
}

/// Every announced address stands for a reported address that passes.
pub proof fn lemma_survivor_origin(raw: Seq<RawInterface>, i: int)
    requires
        0 <= i < survivors(raw).len(),
    ensures
        exists|j: int| 0 <= j < raw.len() && passes(#[trigger] raw[j]) && survivors(raw)[i] == admitted(raw[j]),
    decreases raw.len(),
{
    if raw.len() > 0 {
        let rest = raw.drop_last();
        if passes(raw.last()) && i == survivors(rest).len() {
            let j = raw.len() - 1;
            assert(passes(raw[j]) && survivors(raw)[i] == admitted(raw[j]));
        } else {
            lemma_survivor_origin(rest, i);
            let j = choose|j: int| 0 <= j < rest.len() && passes(#[trigger] rest[j]) && survivors(rest)[i] == admitted(rest[j]);
            assert(rest[j] == raw[j]);
            assert(passes(raw[j]) && survivors(raw)[i] == admitted(raw[j]));
        }
    }
}

/// Every sender of a channel is one of the announced addresses, and one the
/// channel is eligible for.
pub proof fn lemma_sender_origin(addrs: Seq<InterfaceAddress>, channel: Channel, i: int)
    requires
        0 <= i < senders(addrs, channel).len(),
    ensures
        eligible(senders(addrs, channel)[i], channel),
        exists|j: int| 0 <= j < addrs.len() && senders(addrs, channel)[i] == #[trigger] addrs[j],
    decreases addrs.len(),
{
    if addrs.len() > 0 {
        let rest = addrs.drop_last();
        if eligible(addrs.last(), channel) && i == senders(rest, channel).len() {
            let j = addrs.len() - 1;
            assert(senders(addrs, channel)[i] == addrs[j]);
        } else {
            lemma_sender_origin(rest, channel, i);
            let j = choose|j: int| 0 <= j < rest.len() && senders(rest, channel)[i] == #[trigger] rest[j];
            assert(rest[j] == addrs[j]);
            assert(senders(addrs, channel)[i] == addrs[j]);
        }
    }
}

/// Where nothing that was reported passes, nothing is announced.
pub proof fn lemma_nothing_passes(raw: Seq<RawInterface>)
    requires
        forall|j: int| 0 <= j < raw.len() ==> !passes(#[trigger] raw[j]),
    ensures
        survivors(raw) == Seq::<InterfaceAddress>::empty(),
    decreases raw.len(),
{
    if raw.len() > 0 {
        let rest = raw.drop_last();
        assert(forall|j: int| 0 <= j < rest.len() ==> rest[j] == raw[j]);
        lemma_nothing_passes(rest);
    }
}

/// Whether a reported address is the IPv4 loopback address, the IPv6
/// loopback address or an IPv6 link-local address.
pub open spec fn is_local_only(raw: RawInterface) -> bool {
    match raw.addr {
        RawAddr::V4 { ip, broadcast } => ip.spec_is_localhost(),
        RawAddr::V6 { ip } => ip.spec_is_loopback() || ip.spec_is_link_local(),
    }
}

/// A host that reports only loopback and link-local addresses has no sender
/// on any channel.
pub proof fn law_local_only_has_no_senders(raw: Seq<RawInterface>, channel: Channel)
    requires
        forall|j: int| 0 <= j < raw.len() ==> is_local_only(#[trigger] raw[j]),
    ensures
        senders(survivors(raw), channel) == Seq::<InterfaceAddress>::empty(),
{
    lemma_nothing_passes(raw);
}

/// An IPv4 address that was reported without a broadcast address is a sender
/// on no channel: each sender stands for a reported address that passes, and
/// an IPv4 sender carries the broadcast address it was reported with.
pub proof fn law_senders_passed(raw: Seq<RawInterface>, channel: Channel, i: int)
    requires
        0 <= i < senders(survivors(raw), channel).len(),
    ensures
        exists|j: int|
            0 <= j < raw.len() && passes(#[trigger] raw[j]) && senders(survivors(raw), channel)[i]
                == admitted(raw[j]),
        senders(survivors(raw), channel)[i].ip is V4 ==> senders(
            survivors(raw),
            channel,
        )[i].broadcast_address is Some,
{
    let kept = survivors(raw);
    lemma_sender_origin(kept, channel, i);
    let k = choose|k: int| 0 <= k < kept.len() && senders(kept, channel)[i] == #[trigger] kept[k];
    lemma_survivor_origin(raw, k);
    let j = choose|j: int| 0 <= j < raw.len() && passes(#[trigger] raw[j]) && kept[k] == admitted(raw[j]);
    assert(passes(raw[j]) && senders(kept, channel)[i] == admitted(raw[j]));
}

} // verus!
