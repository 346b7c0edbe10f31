//! The beacon loop: what one cycle sends, and how the phases of a cycle
//! follow one another without end.

use vstd::prelude::*;
use crate::announce::{announcement_text, build};
use crate::config::Config;
use crate::scan::{
    filter_addresses, sender_set, senders, survivors, Channel, DiscoveryError, InterfaceAddress,
    RawInterface,
};
use crate::transmit::{datagrams_of, plan_channel, Datagram};

verus! {

/// The work of one channel in one cycle.
#[derive(Debug)]
pub struct ChannelPlan {
    pub channel: Channel,
    pub datagrams: Vec<Datagram>,
}

/// The work of one cycle: the announcement, which every datagram of the
/// cycle carries, and the channels that send it.
#[derive(Debug)]
pub struct CyclePlan {
    pub announcement: String,
    pub channels: Vec<ChannelPlan>,
}

/// The channels that are switched on, in their fixed order.
pub open spec fn enabled_channels(cfg: Config) -> Seq<Channel> {
    (if cfg.multicast4.enabled {
        seq![Channel::Ipv4Multicast]
    } else {
        Seq::empty()
    }) + (if cfg.broadcast4.enabled {
        seq![Channel::Ipv4Broadcast]
    } else {
        Seq::empty()
    }) + (if cfg.multicast6.enabled {
        seq![Channel::Ipv6Multicast]
    } else {
        Seq::empty()
    })
}

/// Whether `plan` is the work of a cycle that announces `addrs`.
pub open spec fn is_cycle_plan(plan: CyclePlan, cfg: Config, addrs: Seq<InterfaceAddress>) -> bool {
    &&& plan.announcement@ == announcement_text(addrs)
    &&& plan.channels.len() == enabled_channels(cfg).len()
    &&& forall|k: int|
        0 <= k < plan.channels.len() ==> {
            &&& (#[trigger] plan.channels[k]).channel == enabled_channels(cfg)[k]
            &&& plan.channels[k].datagrams@ == datagrams_of(
                cfg,
                enabled_channels(cfg)[k],
                senders(addrs, enabled_channels(cfg)[k]),
            )
        }
}

fn plan_for(cfg: &Config, channel: Channel, addrs: &Vec<InterfaceAddress>) -> (p: ChannelPlan)
    ensures
        p.channel == channel,
        p.datagrams@ == datagrams_of(*cfg, channel, senders(addrs@, channel)),
{
    let set = sender_set(addrs, channel);
    ChannelPlan { channel, datagrams: plan_channel(cfg, channel, &set) }
}

/// Builds the announcement and, for each channel that is switched on, its
/// datagrams. A channel that is switched off gets no entry and so no socket.
pub fn plan_cycle(cfg: &Config, addrs: &Vec<InterfaceAddress>) -> (plan: CyclePlan)
    ensures
        is_cycle_plan(plan, *cfg, addrs@),
{
    let announcement = build(addrs);
    let mut channels: Vec<ChannelPlan> = Vec::new();
    if cfg.multicast4.enabled {
        channels.push(plan_for(cfg, Channel::Ipv4Multicast, addrs));
    }
    if cfg.broadcast4.enabled {
        channels.push(plan_for(cfg, Channel::Ipv4Broadcast, addrs));
    }
    if cfg.multicast6.enabled {
        channels.push(plan_for(cfg, Channel::Ipv6Multicast, addrs));
    }
    CyclePlan { announcement, channels }
}

/// One cycle from the interface query's outcome. A failed query fails the
/// cycle, and nothing is planned; after a query that succeeded the cycle is
/// planned for the addresses that pass.
pub fn run_cycle(cfg: &Config, query: Result<Vec<RawInterface>, DiscoveryError>) -> (r: Result<
    CyclePlan,
    DiscoveryError,
>)
    ensures
        match query {
            Ok(raw) => r is Ok && is_cycle_plan(r->Ok_0, *cfg, survivors(raw@)),
            Err(e) => r is Err && r->Err_0 == e,
        },
{
    match query {
        Ok(raw) => {
            let addrs = filter_addresses(&raw);
            Ok(plan_cycle(cfg, &addrs))
        },
        Err(e) => Err(e),
    }
}

/// A channel that is switched off is none of the channels of a cycle.
pub proof fn law_disabled_channel_absent(cfg: Config, channel: Channel)
    requires
        !cfg.spec_enabled(channel),
    ensures
        forall|k: int| 0 <= k < enabled_channels(cfg).len() ==> enabled_channels(cfg)[k] != channel,
{
}

/// A channel that is switched on is one of the channels of a cycle, once.
pub proof fn law_enabled_channel_present(cfg: Config, channel: Channel)
    requires
        cfg.spec_enabled(channel),
    ensures
        exists|k: int|
            0 <= k < enabled_channels(cfg).len() && #[trigger] enabled_channels(cfg)[k] == channel,
        forall|j: int, k: int|
            0 <= j < k < enabled_channels(cfg).len() ==> enabled_channels(cfg)[j]
                != enabled_channels(cfg)[k],
{
    let chans = enabled_channels(cfg);
    match channel {
        Channel::Ipv4Multicast => {
            assert(chans[0] == channel);
        },
        Channel::Ipv4Broadcast => {
            let k: int = if cfg.multicast4.enabled { 1 } else { 0 };
            assert(chans[k] == channel);
        },
        Channel::Ipv6Multicast => {
            let k = chans.len() - 1;
            assert(chans[k] == channel);
        },
    }
}

/// Where the loop stands within a cycle.
#[derive(Clone, Copy, Debug, PartialEq, Eq, Structural)]
pub enum Phase {
    Scanning,
    Building,
    Dispatching,
    Waiting,
}

/// What the loop's surroundings report back.
#[derive(Clone, Copy, Debug, PartialEq, Eq, Structural)]
pub enum Event {
    /// The interface query returned addresses.
    ScanSucceeded,
    /// The interface query failed.
    ScanFailed,
    /// The announcement and the sender sets are made.
    Built,
    /// Every channel that was started has finished, well or not.
    WorkersFinished,
    /// The interval has passed.
    Slept,
}

/// What the loop's surroundings are to do next.
#[derive(Clone, Copy, Debug, PartialEq, Eq, Structural)]
pub enum Action {
    /// Query the interfaces.
    Scan,
    /// Make the announcement and the sender sets.
    Build,
    /// Start the channels that are switched on and wait for all of them.
    Dispatch,
    /// Sleep.
    Sleep { seconds: u64 },
}

/// The phase that follows. A failed scan goes straight to waiting. An event
/// that does not belong to the phase changes nothing.
pub open spec fn next_phase(phase: Phase, event: Event) -> Phase {
    match (phase, event) {
        (Phase::Scanning, Event::ScanSucceeded) => Phase::Building,
        (Phase::Scanning, Event::ScanFailed) => Phase::Waiting,
        (Phase::Building, Event::Built) => Phase::Dispatching,
        (Phase::Dispatching, Event::WorkersFinished) => Phase::Waiting,
        (Phase::Waiting, Event::Slept) => Phase::Scanning,
        _ => phase,
    }
}

/// What is to be done in a phase.
pub open spec fn action_of(phase: Phase, interval: u8) -> Action {
    match phase {
        Phase::Scanning => Action::Scan,
        Phase::Building => Action::Build,
        Phase::Dispatching => Action::Dispatch,
        Phase::Waiting => Action::Sleep { seconds: interval as u64 },
    }
}

/// The phase the loop starts in.
pub fn start() -> (r: (Phase, Action))
    ensures
        r.0 == Phase::Scanning,
        r.1 == Action::Scan,
{
    (Phase::Scanning, Action::Scan)
}

/// One step of the loop: the phase that follows `phase` on `event`, and what
/// is to be done in it.
pub fn step(phase: Phase, event: Event, cfg: &Config) -> (r: (Phase, Action))
    ensures
        r.0 == next_phase(phase, event),
        r.1 == action_of(r.0, cfg.interval),
{
    let next = match phase {
        Phase::Scanning => match event {
            Event::ScanSucceeded => Phase::Building,
            Event::ScanFailed => Phase::Waiting,
            _ => Phase::Scanning,
        },
        Phase::Building => match event {
            Event::Built => Phase::Dispatching,
            _ => Phase::Building,
        },
        Phase::Dispatching => match event {
            Event::WorkersFinished => Phase::Waiting,
            _ => Phase::Dispatching,
        },
        Phase::Waiting => match event {
            Event::Slept => Phase::Scanning,
            _ => Phase::Waiting,
        },
    };
    let action = match next {
        Phase::Scanning => Action::Scan,
        Phase::Building => Action::Build,
        Phase::Dispatching => Action::Dispatch,
        Phase::Waiting => Action::Sleep { seconds: cfg.interval as u64 },
    };
    (next, action)
}

/// A failed scan neither ends the loop nor skips the wait: the loop sleeps
/// for the interval and then scans again.
pub proof fn law_failed_scan_recovers(interval: u8)
    ensures
        next_phase(Phase::Scanning, Event::ScanFailed) == Phase::Waiting,
        action_of(next_phase(Phase::Scanning, Event::ScanFailed), interval) == (Action::Sleep {
            seconds: interval as u64,
        }),
        next_phase(next_phase(Phase::Scanning, Event::ScanFailed), Event::Slept) == Phase::Scanning,
        action_of(Phase::Scanning, interval) == Action::Scan,
{
}

/// No phase is the last: from each, some event leads on to another.
pub proof fn law_no_terminal_phase(phase: Phase)
    ensures
        exists|event: Event| next_phase(phase, event) != phase,
{
    match phase {
        Phase::Scanning => assert(next_phase(phase, Event::ScanSucceeded) != phase),
        Phase::Building => assert(next_phase(phase, Event::Built) != phase),
        Phase::Dispatching => assert(next_phase(phase, Event::WorkersFinished) != phase),
        Phase::Waiting => assert(next_phase(phase, Event::Slept) != phase),
    }
}

} // verus!
