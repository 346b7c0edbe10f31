//! The channel transmitters: which datagram each sender sends, how a channel
//! goes through its senders one after another, and what it reports at the
//! end.

use vstd::prelude::*;
use crate::addr::{IpAddress, Ipv4};
use crate::config::Config;
use crate::scan::{Channel, InterfaceAddress};

verus! {

/// An address and a port.
#[derive(Clone, Copy, Debug, PartialEq, Eq)]
pub struct Endpoint {
    pub ip: IpAddress,
    pub port: u16,
}

/// What is set on a socket between binding it and sending. Both multicast
/// channels also switch local loopback of multicast on.
#[derive(Clone, Copy, Debug, PartialEq, Eq)]
pub enum SocketSetup {
    /// Multicast TTL and multicast loopback, IPv4.
    Ipv4Multicast { ttl: u32 },
    /// Permission to send to a broadcast address.
    Ipv4Broadcast,
    /// Multicast loopback, IPv6.
    Ipv6Multicast,
}

/// One datagram to send: bind a socket to `source`, apply `setup`, send the
/// announcement to `destination`, close the socket.
#[derive(Clone, Copy, Debug, PartialEq, Eq)]
pub struct Datagram {
    pub source: Endpoint,
    pub setup: SocketSetup,
    pub destination: Endpoint,
}

/// How one sender's attempt ended.
#[derive(Clone, Copy, Debug, PartialEq, Eq, Structural)]
pub enum Attempt {
    Sent,
    BindFailed,
    OptionFailed,
    SendFailed,
}

/// What went wrong with a sender.
#[derive(Clone, Copy, Debug, PartialEq, Eq, Structural)]
pub enum TransmitErrorKind {
    Bind,
    SocketOption,
    Send,
}

/// At least one sender of a channel failed: which sender failed first, how,
/// and how many failed in all.
#[derive(Clone, Copy, Debug, PartialEq, Eq)]
pub struct TransmitError {
    pub first_failed: usize,
    pub kind: TransmitErrorKind,
    pub failures: usize,
}

/// Where a sender's datagram goes. A multicast channel sends to its group.
/// The broadcast channel sends to the sender's own broadcast address, and to
/// `255.255.255.255` where the sender has none.
pub open spec fn destination_ip(cfg: Config, channel: Channel, sender: InterfaceAddress) -> IpAddress {
    match channel {
        Channel::Ipv4Multicast => IpAddress::V4(cfg.multicast4.group),
        Channel::Ipv4Broadcast => IpAddress::V4(
            match sender.broadcast_address {
                Some(b) => b,
                None => Ipv4::broadcast(),
            },
        ),
        Channel::Ipv6Multicast => IpAddress::V6(cfg.multicast6.group),
    }
}

/// What a channel sets on its sockets.
pub open spec fn setup_of(cfg: Config, channel: Channel) -> SocketSetup {
    match channel {
        Channel::Ipv4Multicast => SocketSetup::Ipv4Multicast { ttl: cfg.multicast4.ttl },
        Channel::Ipv4Broadcast => SocketSetup::Ipv4Broadcast,
        Channel::Ipv6Multicast => SocketSetup::Ipv6Multicast,
    }
}

/// The datagram that `sender` sends on `channel`.
pub open spec fn datagram_of(cfg: Config, channel: Channel, sender: InterfaceAddress) -> Datagram {
    Datagram {
        source: Endpoint { ip: sender.ip, port: cfg.spec_local_port(channel) },
        setup: setup_of(cfg, channel),
        destination: Endpoint {
            ip: destination_ip(cfg, channel, sender),
            port: cfg.spec_target_port(channel),
        },
    }
}

/// The datagrams of a channel: one for each sender, in the senders' order.
pub open spec fn datagrams_of(cfg: Config, channel: Channel, senders: Seq<InterfaceAddress>) -> Seq<
    Datagram,
> {
    Seq::new(senders.len(), |i: int| datagram_of(cfg, channel, senders[i]))
}

/// The datagram of the IPv4 multicast channel for `sender`: from the
/// sender's address and the channel's local port to the group, with the
/// channel's TTL.
pub fn ipv4_multicast(cfg: &Config, sender: &InterfaceAddress) -> (d: Datagram)
    ensures
        d == datagram_of(*cfg, Channel::Ipv4Multicast, *sender),
{
    Datagram {
        source: Endpoint { ip: sender.ip, port: cfg.multicast4.local_port },
        setup: SocketSetup::Ipv4Multicast { ttl: cfg.multicast4.ttl },
        destination: Endpoint {
            ip: IpAddress::V4(cfg.multicast4.group),
            port: cfg.multicast4.target_port,
        },
    }
}

/// The datagram of the IPv4 broadcast channel for `sender`: from the
/// sender's address and the channel's local port to the sender's own
/// broadcast address, or to `255.255.255.255` where it has none.
pub fn ipv4_broadcast(cfg: &Config, sender: &InterfaceAddress) -> (d: Datagram)
    ensures
        d == datagram_of(*cfg, Channel::Ipv4Broadcast, *sender),
{
    let to = match sender.broadcast_address {
        Some(b) => b,
        None => Ipv4::all_ones(),
    };
    Datagram {
        source: Endpoint { ip: sender.ip, port: cfg.broadcast4.local_port },
        setup: SocketSetup::Ipv4Broadcast,
        destination: Endpoint { ip: IpAddress::V4(to), port: cfg.broadcast4.target_port },
    }
}

/// The datagram of the IPv6 multicast channel for `sender`: from the
/// sender's address and the channel's local port to the group.
pub fn ipv6_multicast(cfg: &Config, sender: &InterfaceAddress) -> (d: Datagram)
    ensures
        d == datagram_of(*cfg, Channel::Ipv6Multicast, *sender),
{
    Datagram {
        source: Endpoint { ip: sender.ip, port: cfg.multicast6.local_port },
        setup: SocketSetup::Ipv6Multicast,
        destination: Endpoint {
            ip: IpAddress::V6(cfg.multicast6.group),
            port: cfg.multicast6.target_port,
        },
    }
}

/// The datagram that `sender` sends on `channel`.
pub fn datagram_for(cfg: &Config, channel: Channel, sender: &InterfaceAddress) -> (d: Datagram)
    ensures
        d == datagram_of(*cfg, channel, *sender),
{
    match channel {
        Channel::Ipv4Multicast => ipv4_multicast(cfg, sender),
        Channel::Ipv4Broadcast => ipv4_broadcast(cfg, sender),
        Channel::Ipv6Multicast => ipv6_multicast(cfg, sender),
    }
}

/// The datagrams of a channel: one for each sender, in the senders' order.
pub fn plan_channel(cfg: &Config, channel: Channel, senders: &Vec<InterfaceAddress>) -> (plan: Vec<
    Datagram,
>)
    ensures
        plan@ == datagrams_of(*cfg, channel, senders@),
{
    let mut plan: Vec<Datagram> = Vec::new();
    let mut i: usize = 0;
    while i < senders.len()
        invariant
            i <= senders.len(),
            plan.len() == i,
            forall|k: int| 0 <= k < i ==> plan[k] == datagram_of(*cfg, channel, senders[k]),
        decreases senders.len() - i,
    {
        plan.push(datagram_for(cfg, channel, &senders[i]));
        i = i + 1;
    }
    assert(plan@ =~= datagrams_of(*cfg, channel, senders@));
    plan
}

/// Where one sender's attempt stands: what is to be done with its socket
/// next, or how the attempt has ended.
#[derive(Clone, Copy, Debug, PartialEq, Eq, Structural)]
pub enum SocketStep {
    /// Open a socket bound to the datagram's source.
    Bind,
    /// Apply the datagram's setup to the socket.
    Configure,
    /// Send the announcement to the datagram's destination.
    Send,
    /// Close the socket, if one was opened; the attempt has ended.
    Done(Attempt),
}

/// The step that follows `step` once it succeeded or failed. A failure ends
/// the attempt at once, under the name of the step that failed; nothing is
/// tried again.
pub open spec fn step_after(step: SocketStep, succeeded: bool) -> SocketStep {
    match step {
        SocketStep::Bind => if succeeded {
            SocketStep::Configure
        } else {
            SocketStep::Done(Attempt::BindFailed)
        },
        SocketStep::Configure => if succeeded {
            SocketStep::Send
        } else {
            SocketStep::Done(Attempt::OptionFailed)
        },
        SocketStep::Send => if succeeded {
            SocketStep::Done(Attempt::Sent)
        } else {
            SocketStep::Done(Attempt::SendFailed)
        },
        SocketStep::Done(a) => SocketStep::Done(a),
    }
}

/// The step an attempt starts with.
pub fn first_step() -> (s: SocketStep)
    ensures
        s == SocketStep::Bind,
{
    SocketStep::Bind
}

/// The step that follows `step` once it succeeded or failed.
pub fn next_step(step: SocketStep, succeeded: bool) -> (s: SocketStep)
    ensures
        s == step_after(step, succeeded),
{
    match step {
        SocketStep::Bind => if succeeded {
            SocketStep::Configure
        } else {
            SocketStep::Done(Attempt::BindFailed)
        },
        SocketStep::Configure => if succeeded {
            SocketStep::Send
        } else {
            SocketStep::Done(Attempt::OptionFailed)
        },
        SocketStep::Send => if succeeded {
            SocketStep::Done(Attempt::Sent)
        } else {
            SocketStep::Done(Attempt::SendFailed)
        },
        SocketStep::Done(a) => SocketStep::Done(a),
    }
}

/// An attempt ends as sent only after all three steps succeeded, and every
/// attempt has ended after three steps.
pub proof fn law_attempt_ends(bound: bool, configured: bool, sent: bool)
    ensures
        step_after(step_after(step_after(SocketStep::Bind, bound), configured), sent) is Done,
        step_after(step_after(step_after(SocketStep::Bind, bound), configured), sent)
            == SocketStep::Done(Attempt::Sent) <==> bound && configured && sent,
        !bound ==> step_after(SocketStep::Bind, bound) == SocketStep::Done(Attempt::BindFailed),
        bound && !configured ==> step_after(step_after(SocketStep::Bind, bound), configured)
            == SocketStep::Done(Attempt::OptionFailed),
{
}

/// Whether an attempt failed.
pub open spec fn failed(a: Attempt) -> bool {
    a != Attempt::Sent
}

/// The kind of failure an attempt stands for.
pub open spec fn kind_of(a: Attempt) -> TransmitErrorKind {
    match a {
        Attempt::BindFailed => TransmitErrorKind::Bind,
        Attempt::OptionFailed => TransmitErrorKind::SocketOption,
        _ => TransmitErrorKind::Send,
    }
}

/// How many of the attempts failed.
pub open spec fn failure_count(outcomes: Seq<Attempt>) -> nat
    decreases outcomes.len(),
{
    if outcomes.len() == 0 {
        0
    } else {
        failure_count(outcomes.drop_last()) + if failed(outcomes.last()) {
            1nat
        } else {
            0nat
        }
    }
}

/// Sums up a channel's attempts: nothing to report where every sender sent,
/// and otherwise the first failure and the number of failures.
pub fn summarize(outcomes: &Vec<Attempt>) -> (r: Result<(), TransmitError>)
    ensures
        r is Ok <==> forall|i: int| 0 <= i < outcomes.len() ==> !failed(#[trigger] outcomes[i]),
        r matches Err(e) ==> {
            &&& e.first_failed < outcomes.len()
            &&& failed(outcomes[e.first_failed as int])
            &&& forall|j: int| 0 <= j < e.first_failed ==> !failed(#[trigger] outcomes[j])
            &&& e.kind == kind_of(outcomes[e.first_failed as int])
            &&& e.failures == failure_count(outcomes@)
        },
{
    let mut first: Option<(usize, TransmitErrorKind)> = None;
    let mut failures: usize = 0;
    let mut i: usize = 0;
    assert(outcomes@.take(0) =~= Seq::empty());
    while i < outcomes.len()
        invariant
            i <= outcomes.len(),
            failures == failure_count(outcomes@.take(i as int)),
            failures <= i,
            first is None <==> forall|k: int| 0 <= k < i ==> !failed(#[trigger] outcomes[k]),
            first matches Some(f) ==> {
                &&& f.0 < i
                &&& failed(outcomes[f.0 as int])
                &&& forall|j: int| 0 <= j < f.0 ==> !failed(#[trigger] outcomes[j])
                &&& f.1 == kind_of(outcomes[f.0 as int])
            },
        decreases outcomes.len() - i,
    {
        assert(outcomes@.take(i as int + 1).drop_last() =~= outcomes@.take(i as int));
        assert(outcomes@.take(i as int + 1).last() == outcomes@[i as int]);
        let kind = match outcomes[i] {
            Attempt::Sent => None,
            Attempt::BindFailed => Some(TransmitErrorKind::Bind),
            Attempt::OptionFailed => Some(TransmitErrorKind::SocketOption),
            Attempt::SendFailed => Some(TransmitErrorKind::Send),
        };
        match kind {
            Some(k) => {
                failures = failures + 1;
                if first.is_none() {
                    first = Some((i, k));
                }
            },
            None => {},
        }
        i = i + 1;
    }
    assert(outcomes@.take(outcomes.len() as int) =~= outcomes@);
    match first {
        None => Ok(()),
        Some(f) => Err(TransmitError { first_failed: f.0, kind: f.1, failures }),
    }
}

/// A channel at work: its datagrams, and how the attempts so far have ended.
/// The next datagram is the one after the last attempt, however that ended.
pub struct Transmitter {
    plan: Vec<Datagram>,
    outcomes: Vec<Attempt>,
}

impl Transmitter {
    /// The channel's datagrams.
    pub closed spec fn plan(&self) -> Seq<Datagram> {
        self.plan@
    }

    /// How the attempts so far have ended, first attempt first.
    pub closed spec fn outcomes(&self) -> Seq<Attempt> {
        self.outcomes@
    }

    /// No more attempts are recorded than there are datagrams.
    pub open spec fn wf(&self) -> bool {
        self.outcomes().len() <= self.plan().len()
    }

    /// The datagram to attempt next, if one is left.
    pub open spec fn spec_pending(&self) -> Option<Datagram> {
        if self.outcomes().len() < self.plan().len() {
            Some(self.plan()[self.outcomes().len() as int])
        } else {
            None
        }
    }

    /// A channel that has attempted nothing yet.
    pub fn new(plan: Vec<Datagram>) -> (t: Transmitter)
        ensures
            t.wf(),
            t.plan() == plan@,
            t.outcomes() == Seq::<Attempt>::empty(),
    {
        Transmitter { plan, outcomes: Vec::new() }
    }

    /// The datagram to attempt next; `None` once every sender was attempted.
    #[verifier::when_used_as_spec(spec_pending)]
    pub fn pending(&self) -> (d: Option<Datagram>)
        ensures
            d == self.spec_pending(),
    {
        if self.outcomes.len() < self.plan.len() {
            Some(self.plan[self.outcomes.len()])
        } else {
            None
        }
    }

    /// Records how the pending attempt ended. Whether it was sent or failed,
    /// the channel moves on to the next sender.
    pub fn record(&mut self, outcome: Attempt)
        requires
            old(self).wf(),
            old(self).spec_pending() is Some,
        ensures
            final(self).wf(),
            final(self).plan() == old(self).plan(),
            final(self).outcomes() == old(self).outcomes().push(outcome),
            final(self).spec_pending() == (if old(self).outcomes().len() + 1 < old(self).plan().len() {
                Some(old(self).plan()[old(self).outcomes().len() as int + 1])
            } else {
                None
            }),
    {
        self.outcomes.push(outcome);
    }

    /// What the channel reports once it has gone through its senders.
    pub fn finish(&self) -> (r: Result<(), TransmitError>)
        ensures
            r is Ok <==> forall|i: int|
                0 <= i < self.outcomes().len() ==> !failed(#[trigger] self.outcomes()[i]),
            r matches Err(e) ==> {
                &&& e.first_failed < self.outcomes().len()
                &&& failed(self.outcomes()[e.first_failed as int])
                &&& forall|j: int| 0 <= j < e.first_failed ==> !failed(#[trigger] self.outcomes()[j])
                &&& e.kind == kind_of(self.outcomes()[e.first_failed as int])
                &&& e.failures == failure_count(self.outcomes())
            },
    {
        summarize(&self.outcomes)
    }
}

} // verus!
