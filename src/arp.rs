use vstd::prelude::*;
use crate::eth;
use crate::ip::Ipv4Addr;
use crate::{be16, get_bytes, put_bytes, NextHeader};

verus! {

/// The ARP hardware type.
#[derive(Debug, PartialEq, Eq, Structural, Copy, Clone)]
pub struct HardwareType {
    pub val: be16,
}

impl HardwareType {
    pub const ETHERNET: u16 = 1;

    pub fn new(val: u16) -> (r: HardwareType)
        ensures
            r.val.host() == val,
    {
        HardwareType { val: be16::new(val) }
    }
}

/// The ARP operation.
#[derive(Debug, PartialEq, Eq, Structural, Copy, Clone)]
pub struct Operation {
    pub val: be16,
}

impl Operation {
    pub const REQUEST: u16 = 1;
    pub const REPLY: u16 = 2;

    pub fn new(val: u16) -> (r: Operation)
        ensures
            r.val.host() == val,
    {
        Operation { val: be16::new(val) }
    }
}

pub type ProtocolType = eth::Type;

/// ARP header for 6-byte hardware and 4-byte protocol addresses.
///
/// Parse-only: nothing in it is filled in or inferred.
#[derive(Debug, Copy, Clone)]
pub struct Header {
    /// Hardware Type
    pub h_type: HardwareType,
    /// Protocol Type
    pub p_type: ProtocolType,
    /// Hardware Address Length
    pub h_len: u8,
    /// Protocol Address Length
    pub p_len: u8,
    /// Operation
    pub oper: Operation,
    /// Sender hardware address.
    pub sha: [u8; 6],
    /// Sender protocol address.
    pub spa: [u8; 4],
    /// Target hardware address.
    pub tha: [u8; 6],
    /// Target protocol address.
    pub tpa: [u8; 4],
}

impl Header {
    pub const LEN: usize = 28;

    /// Returns the source address field.
    pub fn spa(&self) -> (r: Ipv4Addr)
        ensures
            r.spec_octets() == self.spa,
    {
        Ipv4Addr::from_octets(self.spa)
    }

    /// Returns the destination address field.
    pub fn tpa(&self) -> (r: Ipv4Addr)
        ensures
            r.spec_octets() == self.tpa,
    {
        Ipv4Addr::from_octets(self.tpa)
    }

    /// Sets the source address field.
    pub fn set_spa(&mut self, src: Ipv4Addr)
        ensures
            *final(self) == (Header { spa: src.spec_octets(), ..*old(self) }),
    {
        self.spa = src.octets();
    }

    /// Sets the destination address field.
    pub fn set_tpa(&mut self, dst: Ipv4Addr)
        ensures
            *final(self) == (Header { tpa: dst.spec_octets(), ..*old(self) }),
    {
        self.tpa = dst.octets();
    }
}

impl NextHeader for Header {
    open spec fn wire_len() -> nat {
        28
    }

    open spec fn wire(self) -> Seq<u8> {
        self.h_type.val.wire() + self.p_type.val.wire() + seq![self.h_len, self.p_len]
            + self.oper.val.wire() + self.sha@ + self.spa@ + self.tha@ + self.tpa@
    }

    fn len() -> (r: usize) {
        Header::LEN
    }

    proof fn lemma_wire_len(self) {
        self.h_type.val.lemma_wire_len();
        self.p_type.val.lemma_wire_len();
        self.oper.val.lemma_wire_len();
    }

    fn read_at(packet: &[u8], at: usize) -> (r: Header) {
        let _n = packet.len();
        let r = Header {
            h_type: HardwareType { val: be16::from_bytes(get_bytes(packet, at)) },
            p_type: eth::Type { val: be16::from_bytes(get_bytes(packet, at + 2)) },
            h_len: packet[at + 4],
            p_len: packet[at + 5],
            oper: Operation { val: be16::from_bytes(get_bytes(packet, at + 6)) },
            sha: get_bytes(packet, at + 8),
            spa: get_bytes(packet, at + 14),
            tha: get_bytes(packet, at + 18),
            tpa: get_bytes(packet, at + 24),
        };
        assert(r.wire() =~= packet@.subrange(at as int, at + 28));
        r
    }

    fn write_at(&self, packet: &mut [u8], at: usize) {
        put_bytes(packet, at, self.encode());
    }
}

impl Header {
    /// The header's wire bytes.
    fn encode(&self) -> (r: [u8; 28])
        ensures
            r@ == self.wire(),
    {
        let (h, p, o) = (self.h_type.val.to_bytes(), self.p_type.val.to_bytes(), self.oper.val.to_bytes());
        let (sha, spa, tha, tpa) = (self.sha, self.spa, self.tha, self.tpa);
        let r = [
            h[0], h[1], p[0], p[1], self.h_len, self.p_len, o[0], o[1],
            sha[0], sha[1], sha[2], sha[3], sha[4], sha[5],
            spa[0], spa[1], spa[2], spa[3],
            tha[0], tha[1], tha[2], tha[3], tha[4], tha[5],
            tpa[0], tpa[1], tpa[2], tpa[3],
        ];
        assert(r@ =~= self.wire());
        r
    }
}

} // verus!
