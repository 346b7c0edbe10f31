//! IPv4 and IPv6 addresses as plain numbers, and the predicates the scanner
//! filters by.

use vstd::prelude::*;

verus! {

/// An IPv4 address, by its four octets in network order.
#[derive(Clone, Copy, Debug, PartialEq, Eq, Structural)]
pub struct Ipv4 {
    pub a: u8,
    pub b: u8,
    pub c: u8,
    pub d: u8,
}

/// An IPv6 address, by its eight 16-bit groups in network order.
#[derive(Clone, Copy, Debug, PartialEq, Eq)]
pub struct Ipv6 {
    pub segments: [u16; 8],
}

/// An address of either family.
#[derive(Clone, Copy, Debug, PartialEq, Eq)]
pub enum IpAddress {
    V4(Ipv4),
    V6(Ipv6),
}

impl Ipv4 {
    /// `127.0.0.1`
    pub open spec fn localhost() -> Ipv4 {
        Ipv4 { a: 127, b: 0, c: 0, d: 1 }
    }

    /// `255.255.255.255`
    pub open spec fn broadcast() -> Ipv4 {
        Ipv4 { a: 255, b: 255, c: 255, d: 255 }
    }

    pub open spec fn spec_is_localhost(self) -> bool {
        self == Ipv4::localhost()
    }

    pub fn new(a: u8, b: u8, c: u8, d: u8) -> (ip: Ipv4)
        ensures
            ip == (Ipv4 { a, b, c, d }),
    {
        Ipv4 { a, b, c, d }
    }

    /// The address with the given octets, first octet first.
    pub fn from_octets(o: [u8; 4]) -> (ip: Ipv4)
        ensures
            ip == (Ipv4 { a: o@[0], b: o@[1], c: o@[2], d: o@[3] }),
    {
        Ipv4 { a: o[0], b: o[1], c: o[2], d: o[3] }
    }

    /// The all-ones broadcast address.
    pub fn all_ones() -> (ip: Ipv4)
        ensures
            ip == Ipv4::broadcast(),
    {
        Ipv4 { a: 255, b: 255, c: 255, d: 255 }
    }

    /// Whether this is exactly `127.0.0.1`.
    #[verifier::when_used_as_spec(spec_is_localhost)]
    pub fn is_localhost(self) -> (r: bool)
        ensures
            r == self.spec_is_localhost(),
    {
        self.a == 127 && self.b == 0 && self.c == 0 && self.d == 1
    }
}

impl Ipv6 {
    /// The eight groups as a sequence.
    pub open spec fn groups(self) -> Seq<u16> {
        self.segments@
    }

    /// `::1`
    pub open spec fn spec_is_loopback(&self) -> bool {
        &&& forall|i: int| 0 <= i < 7 ==> self.segments@[i] == 0
        &&& self.segments@[7] == 1
    }

    /// Inside `fe80::/10`: the first ten bits are `1111 1110 10`.
    pub open spec fn spec_is_link_local(&self) -> bool {
        0xfe80 <= self.segments@[0] <= 0xfebf
    }

    /// `::ffff:a.b.c.d`, an IPv4 address carried in IPv6 form.
    pub open spec fn spec_is_v4_mapped(&self) -> bool {
        &&& forall|i: int| 0 <= i < 5 ==> self.segments@[i] == 0
        &&& self.segments@[5] == 0xffff
    }

    pub fn new(s0: u16, s1: u16, s2: u16, s3: u16, s4: u16, s5: u16, s6: u16, s7: u16) -> (ip: Ipv6)
        ensures
            ip.groups() == seq![s0, s1, s2, s3, s4, s5, s6, s7],
    {
        let ip = Ipv6 { segments: [s0, s1, s2, s3, s4, s5, s6, s7] };
        assert(ip.groups() =~= seq![s0, s1, s2, s3, s4, s5, s6, s7]);
        ip
    }

    /// The address with the given groups, first group first.
    pub fn from_segments(segments: [u16; 8]) -> (ip: Ipv6)
        ensures
            ip.groups() == segments@,
    {
        Ipv6 { segments }
    }

    #[verifier::when_used_as_spec(spec_is_loopback)]
    pub fn is_loopback(&self) -> (r: bool)
        ensures
            r == self.spec_is_loopback(),
    {
        self.segments[0] == 0 && self.segments[1] == 0 && self.segments[2] == 0
            && self.segments[3] == 0 && self.segments[4] == 0 && self.segments[5] == 0
            && self.segments[6] == 0 && self.segments[7] == 1
    }

    #[verifier::when_used_as_spec(spec_is_link_local)]
    pub fn is_link_local(&self) -> (r: bool)
        ensures
            r == self.spec_is_link_local(),
    {
        0xfe80 <= self.segments[0] && self.segments[0] <= 0xfebf
    }

    #[verifier::when_used_as_spec(spec_is_v4_mapped)]
    pub fn is_v4_mapped(&self) -> (r: bool)
        ensures
            r == self.spec_is_v4_mapped(),
    {
        self.segments[0] == 0 && self.segments[1] == 0 && self.segments[2] == 0
            && self.segments[3] == 0 && self.segments[4] == 0 && self.segments[5] == 0xffff
    }
}

impl IpAddress {
    pub open spec fn spec_is_v4(&self) -> bool {
        self is V4
    }

    pub open spec fn spec_is_v6(&self) -> bool {
        self is V6
    }

    #[verifier::when_used_as_spec(spec_is_v4)]
    pub fn is_v4(&self) -> (r: bool)
        ensures
            r == self.spec_is_v4(),
    {
        match self {
            IpAddress::V4(_) => true,
            IpAddress::V6(_) => false,
        }
    }

    #[verifier::when_used_as_spec(spec_is_v6)]
    pub fn is_v6(&self) -> (r: bool)
        ensures
            r == self.spec_is_v6(),
    {
        match self {
            IpAddress::V4(_) => false,
            IpAddress::V6(_) => true,
        }
    }
}

} // verus!
