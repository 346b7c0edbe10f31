use ipcast::addr::{IpAddress, Ipv4, Ipv6};
use ipcast::announce::build;
use ipcast::beacon::{plan_cycle, run_cycle, start, step, Action, Event, Phase};
use ipcast::config::Config;
use ipcast::scan::{
    classify, filter_addresses, scan, scan_host, sender_set, Channel, DiscoveryError, InterfaceAddress,
    RawAddr, RawInterface,
};
use ipcast::transmit::{
    datagram_for, first_step, ipv4_broadcast, ipv4_multicast, ipv6_multicast, next_step,
    plan_channel, summarize, Attempt, Datagram, Endpoint, SocketSetup, SocketStep, TransmitError,
    TransmitErrorKind, Transmitter,
};

fn v4(name: &str, ip: Ipv4, broadcast: Option<Ipv4>) -> RawInterface {
    RawInterface { name: name.to_string(), addr: RawAddr::V4 { ip, broadcast } }
}

fn v6(name: &str, ip: Ipv6) -> RawInterface {
    RawInterface { name: name.to_string(), addr: RawAddr::V6 { ip } }
}

fn eth0() -> RawInterface {
    v4("eth0", Ipv4::new(192, 168, 1, 10), Some(Ipv4::new(192, 168, 1, 255)))
}

fn wlan0() -> RawInterface {
    v4("wlan0", Ipv4::new(10, 0, 0, 7), Some(Ipv4::new(10, 0, 0, 255)))
}

fn global6() -> RawInterface {
    v6("eth0", Ipv6::new(0x2001, 0xdb8, 0, 0, 0, 0, 0, 1))
}

#[test]
fn loopback_and_link_local_leave_every_sender_set_empty() {
    let raw = vec![
        v4("lo", Ipv4::new(127, 0, 0, 1), Some(Ipv4::new(127, 255, 255, 255))),
        v4("lo", Ipv4::new(127, 0, 0, 1), None),
        v6("lo", Ipv6::new(0, 0, 0, 0, 0, 0, 0, 1)),
        v6("eth0", Ipv6::new(0xfe80, 0, 0, 0, 0x1234, 0, 0, 1)),
        v6("eth1", Ipv6::new(0xfebf, 0xffff, 0, 0, 0, 0, 0, 2)),
    ];
    let kept = filter_addresses(&raw);
    assert!(kept.is_empty());
    assert!(sender_set(&kept, Channel::Ipv4Multicast).is_empty());
    assert!(sender_set(&kept, Channel::Ipv4Broadcast).is_empty());
    assert!(sender_set(&kept, Channel::Ipv6Multicast).is_empty());
    assert_eq!(build(&kept), "");
}

#[test]
fn link_local_prefix_is_ten_bits_wide() {
    assert!(Ipv6::new(0xfe80, 0, 0, 0, 0, 0, 0, 1).is_link_local());
    assert!(Ipv6::new(0xfebf, 0, 0, 0, 0, 0, 0, 1).is_link_local());
    assert!(!Ipv6::new(0xfe7f, 0, 0, 0, 0, 0, 0, 1).is_link_local());
    assert!(!Ipv6::new(0xfec0, 0, 0, 0, 0, 0, 0, 1).is_link_local());
    assert!(classify(&v6("eth0", Ipv6::new(0xfec0, 0, 0, 0, 0, 0, 0, 1))).is_some());
    assert!(classify(&v6("eth0", Ipv6::new(0xfea0, 0, 0, 0, 0, 0, 0, 1))).is_none());
}

#[test]
fn only_localhost_counts_as_ipv4_loopback() {
    assert!(Ipv4::new(127, 0, 0, 1).is_localhost());
    assert!(!Ipv4::new(127, 0, 0, 2).is_localhost());
    let other = v4("lo", Ipv4::new(127, 0, 0, 2), Some(Ipv4::new(127, 255, 255, 255)));
    assert!(classify(&other).is_some());
}

#[test]
fn ipv4_without_broadcast_is_never_a_sender() {
    let raw = vec![v4("tun0", Ipv4::new(10, 8, 0, 2), None), eth0()];
    let kept = filter_addresses(&raw);
    assert_eq!(kept.len(), 1);
    assert_eq!(kept[0].interface_name, "eth0");
    for ch in [Channel::Ipv4Multicast, Channel::Ipv4Broadcast, Channel::Ipv6Multicast] {
        for s in sender_set(&kept, ch) {
            assert_ne!(s.ip, IpAddress::V4(Ipv4::new(10, 8, 0, 2)));
        }
    }
    assert_eq!(build(&kept), "eth0 192.168.1.10\n");
}

#[test]
fn classify_keeps_name_address_and_broadcast() {
    let a = classify(&eth0()).unwrap();
    assert_eq!(
        a,
        InterfaceAddress {
            interface_name: "eth0".to_string(),
            ip: IpAddress::V4(Ipv4::new(192, 168, 1, 10)),
            broadcast_address: Some(Ipv4::new(192, 168, 1, 255)),
        }
    );
    let b = classify(&global6()).unwrap();
    assert_eq!(
        b,
        InterfaceAddress {
            interface_name: "eth0".to_string(),
            ip: IpAddress::V6(Ipv6::new(0x2001, 0xdb8, 0, 0, 0, 0, 0, 1)),
            broadcast_address: None,
        }
    );
    assert!(b.ip.is_v6() && !b.ip.is_v4());
    assert_eq!(a.duplicate(), a);
}

#[test]
fn announcement_has_one_line_per_address_in_scan_order() {
    let raw = vec![wlan0(), global6(), eth0()];
    let kept = filter_addresses(&raw);
    let msg = build(&kept);
    assert_eq!(msg, "wlan0 10.0.0.7\neth0 2001:db8::1\neth0 192.168.1.10\n");
    assert_eq!(msg.lines().count(), kept.len());
}

#[test]
fn announcement_is_shared_by_every_channel() {
    let mut cfg = Config::defaults();
    cfg.multicast4.enabled = true;
    cfg.broadcast4.enabled = true;
    cfg.multicast6.enabled = true;
    let kept = filter_addresses(&vec![eth0(), global6()]);
    let plan = plan_cycle(&cfg, &kept);
    assert_eq!(plan.announcement, "eth0 192.168.1.10\neth0 2001:db8::1\n");
    assert_eq!(plan.channels.len(), 3);
    assert_eq!(plan.channels[0].channel, Channel::Ipv4Multicast);
    assert_eq!(plan.channels[1].channel, Channel::Ipv4Broadcast);
    assert_eq!(plan.channels[2].channel, Channel::Ipv6Multicast);
    assert_eq!(plan.channels[0].datagrams.len(), 1);
    assert_eq!(plan.channels[1].datagrams.len(), 1);
    assert_eq!(plan.channels[2].datagrams.len(), 1);
    assert_eq!(
        plan.channels[2].datagrams[0],
        Datagram {
            source: Endpoint {
                ip: IpAddress::V6(Ipv6::new(0x2001, 0xdb8, 0, 0, 0, 0, 0, 1)),
                port: 7902,
            },
            setup: SocketSetup::Ipv6Multicast,
            destination: Endpoint {
                ip: IpAddress::V6(Ipv6::new(0xff1e, 0, 0, 0, 0, 0, 2, 0xa)),
                port: 7902,
            },
        }
    );
}

#[test]
fn disabled_channels_plan_nothing() {
    let cfg = Config::defaults();
    let kept = filter_addresses(&vec![eth0(), global6()]);
    let plan = plan_cycle(&cfg, &kept);
    assert!(plan.channels.is_empty());
    assert_eq!(plan.announcement, "eth0 192.168.1.10\neth0 2001:db8::1\n");

    let mut only6 = Config::defaults();
    only6.multicast6.enabled = true;
    let plan = plan_cycle(&only6, &kept);
    assert_eq!(plan.channels.len(), 1);
    assert_eq!(plan.channels[0].channel, Channel::Ipv6Multicast);
    assert!(!only6.enabled(Channel::Ipv4Multicast));
    assert!(!only6.enabled(Channel::Ipv4Broadcast));
    assert!(only6.enabled(Channel::Ipv6Multicast));
}

#[test]
fn empty_scan_still_plans_enabled_channels() {
    let mut cfg = Config::defaults();
    cfg.broadcast4.enabled = true;
    let plan = plan_cycle(&cfg, &Vec::new());
    assert_eq!(plan.announcement, "");
    assert_eq!(plan.channels.len(), 1);
    assert!(plan.channels[0].datagrams.is_empty());
}

#[test]
fn a_failed_sender_does_not_stop_the_next() {
    let mut cfg = Config::defaults();
    cfg.multicast4.enabled = true;
    let kept = filter_addresses(&vec![eth0(), wlan0()]);
    let set = sender_set(&kept, Channel::Ipv4Multicast);
    let plan = plan_channel(&cfg, Channel::Ipv4Multicast, &set);
    let second = plan[1];
    let mut t = Transmitter::new(plan);
    assert_eq!(t.pending().unwrap().source.ip, IpAddress::V4(Ipv4::new(192, 168, 1, 10)));
    t.record(Attempt::BindFailed);
    assert_eq!(t.pending(), Some(second));
    t.record(Attempt::Sent);
    assert_eq!(t.pending(), None);
    assert_eq!(
        t.finish(),
        Err(TransmitError { first_failed: 0, kind: TransmitErrorKind::Bind, failures: 1 })
    );
}

#[test]
fn summarize_reports_first_failure_and_count() {
    assert_eq!(summarize(&vec![]), Ok(()));
    assert_eq!(summarize(&vec![Attempt::Sent, Attempt::Sent]), Ok(()));
    assert_eq!(
        summarize(&vec![Attempt::BindFailed]),
        Err(TransmitError { first_failed: 0, kind: TransmitErrorKind::Bind, failures: 1 })
    );
    assert_eq!(
        summarize(&vec![Attempt::Sent, Attempt::OptionFailed, Attempt::SendFailed]),
        Err(TransmitError { first_failed: 1, kind: TransmitErrorKind::SocketOption, failures: 2 })
    );
    assert_eq!(
        summarize(&vec![Attempt::Sent, Attempt::Sent, Attempt::SendFailed, Attempt::BindFailed]),
        Err(TransmitError { first_failed: 2, kind: TransmitErrorKind::Send, failures: 2 })
    );
}

#[test]
fn discovery_error_abandons_the_cycle_but_not_the_loop() {
    let mut cfg = Config::defaults();
    cfg.multicast4.enabled = true;
    let err = DiscoveryError { reason: "no interfaces".to_string() };
    assert_eq!(scan(Err(err.clone())), Err(err.clone()));
    match run_cycle(&cfg, Err(err.clone())) {
        Ok(_) => panic!("a failed query planned a cycle"),
        Err(e) => assert_eq!(e, err),
    }
    let (phase, action) = start();
    assert_eq!((phase, action), (Phase::Scanning, Action::Scan));
    let (phase, action) = step(phase, Event::ScanFailed, &cfg);
    assert_eq!((phase, action), (Phase::Waiting, Action::Sleep { seconds: 6 }));
    let (phase, action) = step(phase, Event::Slept, &cfg);
    assert_eq!((phase, action), (Phase::Scanning, Action::Scan));
}

#[test]
fn a_full_cycle_goes_through_every_phase() {
    let mut cfg = Config::defaults();
    cfg.interval = 9;
    let (p, a) = step(Phase::Scanning, Event::ScanSucceeded, &cfg);
    assert_eq!((p, a), (Phase::Building, Action::Build));
    let (p, a) = step(p, Event::Built, &cfg);
    assert_eq!((p, a), (Phase::Dispatching, Action::Dispatch));
    let (p, a) = step(p, Event::WorkersFinished, &cfg);
    assert_eq!((p, a), (Phase::Waiting, Action::Sleep { seconds: 9 }));
    let (p, a) = step(p, Event::Slept, &cfg);
    assert_eq!((p, a), (Phase::Scanning, Action::Scan));
}

#[test]
fn an_event_out_of_place_changes_nothing() {
    let cfg = Config::defaults();
    assert_eq!(step(Phase::Scanning, Event::Slept, &cfg), (Phase::Scanning, Action::Scan));
    assert_eq!(step(Phase::Building, Event::ScanFailed, &cfg), (Phase::Building, Action::Build));
    assert_eq!(
        step(Phase::Dispatching, Event::Built, &cfg),
        (Phase::Dispatching, Action::Dispatch)
    );
    assert_eq!(
        step(Phase::Waiting, Event::WorkersFinished, &cfg),
        (Phase::Waiting, Action::Sleep { seconds: 6 })
    );
}

#[test]
fn scenario_only_ipv4_multicast_one_interface() {
    let mut cfg = Config::defaults();
    cfg.multicast4.enabled = true;
    let plan = run_cycle(&cfg, Ok(vec![eth0()])).unwrap();
    let kept = scan(Ok(vec![eth0()])).unwrap();
    let set = sender_set(&kept, Channel::Ipv4Multicast);
    assert_eq!(set.len(), 1);
    assert_eq!(set[0].ip, IpAddress::V4(Ipv4::new(192, 168, 1, 10)));
    assert_eq!(plan.announcement, "eth0 192.168.1.10\n");
    assert_eq!(plan.channels.len(), 1);
    assert_eq!(plan.channels[0].channel, Channel::Ipv4Multicast);
    assert_eq!(
        plan.channels[0].datagrams,
        vec![Datagram {
            source: Endpoint { ip: IpAddress::V4(Ipv4::new(192, 168, 1, 10)), port: 7900 },
            setup: SocketSetup::Ipv4Multicast { ttl: 15 },
            destination: Endpoint { ip: IpAddress::V4(Ipv4::new(224, 0, 2, 42)), port: 7900 },
        }]
    );
}

#[test]
fn scenario_two_interfaces_both_ipv4_channels() {
    let mut cfg = Config::defaults();
    cfg.multicast4.enabled = true;
    cfg.broadcast4.enabled = true;
    let plan = run_cycle(&cfg, Ok(vec![eth0(), wlan0()])).unwrap();
    assert_eq!(plan.channels.len(), 2);
    assert_eq!(plan.channels[0].channel, Channel::Ipv4Multicast);
    assert_eq!(plan.channels[1].channel, Channel::Ipv4Broadcast);
    assert_eq!(plan.channels[0].datagrams.len(), 2);
    assert_eq!(plan.channels[1].datagrams.len(), 2);
    let total: usize = plan.channels.iter().map(|c| c.datagrams.len()).sum();
    assert_eq!(total, 4);
    for c in &plan.channels {
        for d in &c.datagrams {
            assert!(d.source.ip.is_v4());
        }
    }
}

#[test]
fn broadcast_goes_to_each_senders_own_broadcast_address() {
    let mut cfg = Config::defaults();
    cfg.broadcast4.enabled = true;
    cfg.broadcast4.local_port = 5001;
    cfg.broadcast4.target_port = 5002;
    let kept = filter_addresses(&vec![eth0(), wlan0()]);
    let plan = plan_channel(&cfg, Channel::Ipv4Broadcast, &kept);
    assert_eq!(
        plan,
        vec![
            Datagram {
                source: Endpoint { ip: IpAddress::V4(Ipv4::new(192, 168, 1, 10)), port: 5001 },
                setup: SocketSetup::Ipv4Broadcast,
                destination: Endpoint { ip: IpAddress::V4(Ipv4::new(192, 168, 1, 255)), port: 5002 },
            },
            Datagram {
                source: Endpoint { ip: IpAddress::V4(Ipv4::new(10, 0, 0, 7)), port: 5001 },
                setup: SocketSetup::Ipv4Broadcast,
                destination: Endpoint { ip: IpAddress::V4(Ipv4::new(10, 0, 0, 255)), port: 5002 },
            },
        ]
    );
}

#[test]
fn broadcast_falls_back_to_all_ones() {
    let cfg = Config::defaults();
    let sender = InterfaceAddress {
        interface_name: "eth0".to_string(),
        ip: IpAddress::V4(Ipv4::new(192, 168, 1, 10)),
        broadcast_address: None,
    };
    let d = datagram_for(&cfg, Channel::Ipv4Broadcast, &sender);
    assert_eq!(d.destination.ip, IpAddress::V4(Ipv4::new(255, 255, 255, 255)));
    assert_eq!(Ipv4::all_ones(), Ipv4::new(255, 255, 255, 255));
    assert_eq!(d.destination.port, 7901);
}

#[test]
fn defaults_are_as_documented() {
    let mut cfg = Config::defaults();
    assert_eq!(cfg.interval, 6);
    assert!(cfg.is_valid());
    cfg.interval = 0;
    assert!(!cfg.is_valid());
    cfg.interval = 6;
    assert!(!cfg.multicast4.enabled && !cfg.broadcast4.enabled && !cfg.multicast6.enabled);
    assert_eq!(cfg.multicast4.group, Ipv4::new(224, 0, 2, 42));
    assert_eq!(cfg.multicast4.ttl, 15);
    assert_eq!(cfg.multicast6.group, Ipv6::new(0xff1e, 0, 0, 0, 0, 0, 2, 0xa));
    assert_eq!(cfg.local_port(Channel::Ipv4Multicast), 7900);
    assert_eq!(cfg.target_port(Channel::Ipv4Multicast), 7900);
    assert_eq!(cfg.local_port(Channel::Ipv4Broadcast), 7901);
    assert_eq!(cfg.target_port(Channel::Ipv4Broadcast), 7901);
    assert_eq!(cfg.local_port(Channel::Ipv6Multicast), 7902);
    assert_eq!(cfg.target_port(Channel::Ipv6Multicast), 7902);
}

#[test]
fn host_scan_yields_only_addresses_that_pass() {
    if let Ok(addrs) = scan_host() {
        for a in &addrs {
            match a.ip {
                IpAddress::V4(ip) => {
                    assert!(!ip.is_localhost());
                    assert!(a.broadcast_address.is_some());
                }
                IpAddress::V6(ip) => {
                    assert!(!ip.is_loopback());
                    assert!(!ip.is_link_local());
                    assert!(a.broadcast_address.is_none());
                }
            }
        }
        let msg = build(&addrs);
        assert_eq!(msg.matches('\n').count(), addrs.len());
    }
}

#[test]
fn an_attempt_ends_at_the_first_step_that_fails() {
    assert_eq!(first_step(), SocketStep::Bind);
    assert_eq!(next_step(SocketStep::Bind, true), SocketStep::Configure);
    assert_eq!(next_step(SocketStep::Bind, false), SocketStep::Done(Attempt::BindFailed));
    assert_eq!(next_step(SocketStep::Configure, true), SocketStep::Send);
    assert_eq!(next_step(SocketStep::Configure, false), SocketStep::Done(Attempt::OptionFailed));
    assert_eq!(next_step(SocketStep::Send, true), SocketStep::Done(Attempt::Sent));
    assert_eq!(next_step(SocketStep::Send, false), SocketStep::Done(Attempt::SendFailed));
    assert_eq!(
        next_step(SocketStep::Done(Attempt::BindFailed), true),
        SocketStep::Done(Attempt::BindFailed)
    );
}

#[test]
fn each_channel_has_its_own_datagram() {
    let mut cfg = Config::defaults();
    cfg.multicast4.ttl = 3;
    let a = classify(&eth0()).unwrap();
    let m = ipv4_multicast(&cfg, &a);
    assert_eq!(m, datagram_for(&cfg, Channel::Ipv4Multicast, &a));
    assert_eq!(m.setup, SocketSetup::Ipv4Multicast { ttl: 3 });
    assert_eq!(m.destination, Endpoint { ip: IpAddress::V4(Ipv4::new(224, 0, 2, 42)), port: 7900 });
    let b = ipv4_broadcast(&cfg, &a);
    assert_eq!(b, datagram_for(&cfg, Channel::Ipv4Broadcast, &a));
    assert_eq!(b.source, Endpoint { ip: IpAddress::V4(Ipv4::new(192, 168, 1, 10)), port: 7901 });
    assert_eq!(b.destination, Endpoint { ip: IpAddress::V4(Ipv4::new(192, 168, 1, 255)), port: 7901 });
    let g = classify(&global6()).unwrap();
    let s = ipv6_multicast(&cfg, &g);
    assert_eq!(s, datagram_for(&cfg, Channel::Ipv6Multicast, &g));
    assert_eq!(s.setup, SocketSetup::Ipv6Multicast);
    assert_eq!(
        s.destination,
        Endpoint { ip: IpAddress::V6(Ipv6::new(0xff1e, 0, 0, 0, 0, 0, 2, 0xa)), port: 7902 }
    );
}

#[test]
fn addresses_from_octets_and_groups() {
    assert_eq!(Ipv4::from_octets([10, 20, 30, 40]), Ipv4::new(10, 20, 30, 40));
    assert_eq!(
        Ipv6::from_segments([1, 2, 3, 4, 5, 6, 7, 8]),
        Ipv6::new(1, 2, 3, 4, 5, 6, 7, 8)
    );
}
