//! The beacon's configuration: made once, read by every cycle.

use vstd::prelude::*;
use crate::addr::{Ipv4, Ipv6};
use crate::scan::Channel;

verus! {

/// The IPv4 multicast channel.
#[derive(Clone, Copy, Debug, PartialEq, Eq)]
pub struct Multicast4Config {
    pub enabled: bool,
    pub local_port: u16,
    pub target_port: u16,
    pub group: Ipv4,
    pub ttl: u32,
}

/// The IPv4 broadcast channel. Its target address is each sender's own
/// broadcast address.
#[derive(Clone, Copy, Debug, PartialEq, Eq)]
pub struct Broadcast4Config {
    pub enabled: bool,
    pub local_port: u16,
    pub target_port: u16,
}

/// The IPv6 multicast channel.
#[derive(Clone, Copy, Debug, PartialEq, Eq)]
pub struct Multicast6Config {
    pub enabled: bool,
    pub local_port: u16,
    pub target_port: u16,
    pub group: Ipv6,
}

/// The whole configuration. `interval` is the number of seconds between
/// cycles, at least one.
#[derive(Clone, Copy, Debug, PartialEq, Eq)]
pub struct Config {
    pub interval: u8,
    pub multicast4: Multicast4Config,
    pub broadcast4: Broadcast4Config,
    pub multicast6: Multicast6Config,
}

impl Config {
    /// Whether a channel is switched on.
    pub open spec fn spec_enabled(&self, channel: Channel) -> bool {
        match channel {
            Channel::Ipv4Multicast => self.multicast4.enabled,
            Channel::Ipv4Broadcast => self.broadcast4.enabled,
            Channel::Ipv6Multicast => self.multicast6.enabled,
        }
    }

    /// The port a channel's sockets are bound to.
    pub open spec fn spec_local_port(&self, channel: Channel) -> u16 {
        match channel {
            Channel::Ipv4Multicast => self.multicast4.local_port,
            Channel::Ipv4Broadcast => self.broadcast4.local_port,
            Channel::Ipv6Multicast => self.multicast6.local_port,
        }
    }

    /// The port a channel sends to.
    pub open spec fn spec_target_port(&self, channel: Channel) -> u16 {
        match channel {
            Channel::Ipv4Multicast => self.multicast4.target_port,
            Channel::Ipv4Broadcast => self.broadcast4.target_port,
            Channel::Ipv6Multicast => self.multicast6.target_port,
        }
    }

    /// The interval is at least one second.
    pub open spec fn spec_is_valid(&self) -> bool {
        self.interval >= 1
    }

    /// The defaults: every channel switched off, a cycle every 6 seconds,
    /// ports 7900, 7901 and 7902, the groups `224.0.2.42` and `ff1e::2:a`,
    /// and a TTL of 15.
    pub open spec fn spec_defaults() -> Config {
        Config {
            interval: 6,
            multicast4: Multicast4Config {
                enabled: false,
                local_port: 7900,
                target_port: 7900,
                group: Ipv4 { a: 224, b: 0, c: 2, d: 42 },
                ttl: 15,
            },
            broadcast4: Broadcast4Config { enabled: false, local_port: 7901, target_port: 7901 },
            multicast6: Multicast6Config {
                enabled: false,
                local_port: 7902,
                target_port: 7902,
                group: Ipv6 { segments: [0xff1e, 0, 0, 0, 0, 0, 2, 0xa] },
            },
        }
    }

    #[verifier::when_used_as_spec(spec_defaults)]
    pub fn defaults() -> (cfg: Config)
        ensures
            cfg == Config::spec_defaults(),
            cfg.spec_is_valid(),
    {
        Config {
            interval: 6,
            multicast4: Multicast4Config {
                enabled: false,
                local_port: 7900,
                target_port: 7900,
                group: Ipv4 { a: 224, b: 0, c: 2, d: 42 },
                ttl: 15,
            },
            broadcast4: Broadcast4Config { enabled: false, local_port: 7901, target_port: 7901 },
            multicast6: Multicast6Config {
                enabled: false,
                local_port: 7902,
                target_port: 7902,
                group: Ipv6 { segments: [0xff1e, 0, 0, 0, 0, 0, 2, 0xa] },
            },
        }
    }

    /// Whether the interval is at least one second.
    #[verifier::when_used_as_spec(spec_is_valid)]
    pub fn is_valid(&self) -> (r: bool)
        ensures
            r == self.spec_is_valid(),
    {
        self.interval >= 1
    }

    #[verifier::when_used_as_spec(spec_enabled)]
    pub fn enabled(&self, channel: Channel) -> (r: bool)
        ensures
            r == self.spec_enabled(channel),
    {
        match channel {
            Channel::Ipv4Multicast => self.multicast4.enabled,
            Channel::Ipv4Broadcast => self.broadcast4.enabled,
            Channel::Ipv6Multicast => self.multicast6.enabled,
        }
    }

    #[verifier::when_used_as_spec(spec_local_port)]
    pub fn local_port(&self, channel: Channel) -> (r: u16)
        ensures
            r == self.spec_local_port(channel),
    {
        match channel {
            Channel::Ipv4Multicast => self.multicast4.local_port,
            Channel::Ipv4Broadcast => self.broadcast4.local_port,
            Channel::Ipv6Multicast => self.multicast6.local_port,
        }
    }

    #[verifier::when_used_as_spec(spec_target_port)]
    pub fn target_port(&self, channel: Channel) -> (r: u16)
        ensures
            r == self.spec_target_port(channel),
    {
        match channel {
            Channel::Ipv4Multicast => self.multicast4.target_port,
            Channel::Ipv4Broadcast => self.broadcast4.target_port,
            Channel::Ipv6Multicast => self.multicast6.target_port,
        }
    }
}

} // verus!
