use vstd::prelude::*;
use crate::{arp, ipv4, ipv6};
use crate::{
    be16, get_bytes, put_bytes, AutoNextHeader, HeaderPtr, NextHeader, Ptr, Window,
};

verus! {

/// An EtherType: the protocol carried in an Ethernet frame's payload.
#[derive(Debug, PartialEq, Eq, Structural, Copy, Clone)]
pub struct Type {
    pub val: be16,
}

impl Type {
    pub const IPV4: u16 = 0x0800;
    pub const ARP: u16 = 0x0806;
    pub const IPV6: u16 = 0x86DD;

    /// The EtherType in host order.
    pub open spec fn value(self) -> u16 {
        self.val.host()
    }

    pub fn new(val: u16) -> (r: Type)
        ensures
            r.value() == val,
    {
        Type { val: be16::new(val) }
    }
}

/// Ethernet II header: destination and source MAC addresses and the EtherType.
///
/// Parse-only: nothing in it is filled in or inferred.
#[derive(Debug, Copy, Clone)]
pub struct Header {
    /// Destination MAC address.
    pub dst_addr: [u8; 6],
    /// Source MAC address.
    pub src_addr: [u8; 6],
    /// Protocol which is encapsulated in the payload of the frame.
    pub ether_type: Type,
}

impl Header {
    pub const LEN: usize = 14;

    /// A cursor at the start of `frame`, if an Ethernet header fits there.
    pub fn from_frame(frame: Window) -> (r: Result<Ptr<Header>, ()>)
        ensures
            r is Ok <==> frame.start + 14 <= frame.end,
            r matches Ok(p) ==> p.addr() == frame.start,
    {
        Ptr::<Header>::construct(frame.start, frame)
    }
}

impl NextHeader for Header {
    open spec fn wire_len() -> nat {
        14
    }

    open spec fn wire(self) -> Seq<u8> {
        self.dst_addr@ + self.src_addr@ + self.ether_type.val.wire()
    }

    fn len() -> (r: usize) {
        Header::LEN
    }

    proof fn lemma_wire_len(self) {
        self.ether_type.val.lemma_wire_len();
    }

    fn read_at(packet: &[u8], at: usize) -> (r: Header) {
        let _n = packet.len();
        let r = Header {
            dst_addr: get_bytes(packet, at),
            src_addr: get_bytes(packet, at + 6),
            ether_type: Type { val: be16::from_bytes(get_bytes(packet, at + 12)) },
        };
        assert(r.wire() =~= packet@.subrange(at as int, at + 14));
        r
    }

    fn write_at(&self, packet: &mut [u8], at: usize) {
        put_bytes(packet, at, self.encode());
    }
}

impl Header {
    /// The header's wire bytes.
    pub(crate) fn encode(&self) -> (r: [u8; 14])
        ensures
            r@ == self.wire(),
    {
        let (d, s, t) = (self.dst_addr, self.src_addr, self.ether_type.val.to_bytes());
        let r = [
            d[0], d[1], d[2], d[3], d[4], d[5], s[0], s[1], s[2], s[3], s[4], s[5], t[0], t[1],
        ];
        assert(r@ =~= self.wire());
        r
    }
}

impl AutoNextHeader for Header {
    /// ARP, IPv4 and IPv6 follow by EtherType; any other EtherType is unhandled.
    fn next(&self, at: &Ptr<Header>, frame: Window) -> (r: Result<HeaderPtr, ()>)
        ensures
            self.ether_type.value() == Type::ARP ==> if at.next_fits::<arp::Header>(frame) {
                r matches Ok(HeaderPtr::Arp(p)) && p.addr() == at.next_addr()
            } else {
                r is Err
            },
            self.ether_type.value() == Type::IPV4 ==> if at.next_fits::<ipv4::Header>(frame) {
                r matches Ok(HeaderPtr::Ipv4(p)) && p.addr() == at.next_addr()
            } else {
                r is Err
            },
            self.ether_type.value() == Type::IPV6 ==> if at.next_fits::<ipv6::Header>(frame) {
                r matches Ok(HeaderPtr::Ipv6(p)) && p.addr() == at.next_addr()
            } else {
                r is Err
            },
            self.ether_type.value() != Type::ARP && self.ether_type.value() != Type::IPV4
                && self.ether_type.value() != Type::IPV6 ==> r matches Ok(HeaderPtr::Unhandled()),
    {
        let t = self.ether_type.val.to_host();
        if t == Type::ARP {
            match at.next_t::<arp::Header>(frame) {
                Ok(p) => Ok(HeaderPtr::Arp(p)),
                Err(()) => Err(()),
            }
        } else if t == Type::IPV4 {
            match at.next_t::<ipv4::Header>(frame) {
                Ok(p) => Ok(HeaderPtr::Ipv4(p)),
                Err(()) => Err(()),
            }
        } else if t == Type::IPV6 {
            match at.next_t::<ipv6::Header>(frame) {
                Ok(p) => Ok(HeaderPtr::Ipv6(p)),
                Err(()) => Err(()),
            }
        } else {
            Ok(HeaderPtr::Unhandled())
        }
    }
}

} // verus!
