use vstd::prelude::*;

verus! {

/// An IP protocol number: the protocol carried in an IP packet's payload.
#[derive(Debug, PartialEq, Eq, Structural, Copy, Clone)]
pub struct Proto {
    pub val: u8,
}

impl Proto {
    pub const ICMP: u8 = 1;
    pub const TCP: u8 = 6;
    pub const UDP: u8 = 17;

    pub fn new(val: u8) -> (r: Proto)
        ensures
            r.val == val,
    {
        Proto { val }
    }
}

/// An IPv4 address, held as its four octets in wire order.
#[derive(Debug, PartialEq, Eq, Copy, Clone)]
pub struct Ipv4Addr {
    octets: [u8; 4],
}

impl Ipv4Addr {
    pub closed spec fn spec_octets(self) -> [u8; 4] {
        self.octets
    }

    pub fn new(a: u8, b: u8, c: u8, d: u8) -> (r: Ipv4Addr)
        ensures
            r.spec_octets()@ == seq![a, b, c, d],
    {
        let r = Ipv4Addr { octets: [a, b, c, d] };
        assert(r.octets@ =~= seq![a, b, c, d]);
        r
    }

    pub fn from_octets(octets: [u8; 4]) -> (r: Ipv4Addr)
        ensures
            r.spec_octets() == octets,
    {
        Ipv4Addr { octets }
    }

    pub fn octets(&self) -> (r: [u8; 4])
        ensures
            r == self.spec_octets(),
    {
        self.octets
    }
}

/// An IPv6 address, held as its sixteen octets in wire order.
#[derive(Debug, PartialEq, Eq, Copy, Clone)]
pub struct Ipv6Addr {
    octets: [u8; 16],
}

impl Ipv6Addr {
    pub closed spec fn spec_octets(self) -> [u8; 16] {
        self.octets
    }

    pub fn from_octets(octets: [u8; 16]) -> (r: Ipv6Addr)
        ensures
            r.spec_octets() == octets,
    {
        Ipv6Addr { octets }
    }

    pub fn octets(&self) -> (r: [u8; 16])
        ensures
            r == self.spec_octets(),
    {
        self.octets
    }
}

} // verus!
