use vstd::prelude::*;
use crate::ip::{Ipv4Addr, Proto};
use crate::{tcp, udp};
use crate::{be16, get_bytes, put_bytes, AutoNextHeader, HeaderPtr, NextHeader, Ptr, Window};

verus! {

/// IPv4 header without options, which is present after the Ethernet header.
///
/// Initialize-for-send: `default` gives version 4 and a header length of 5
/// words; everything else is zero.
#[derive(Debug, Copy, Clone)]
pub struct Header {
    /// Version in the high nibble, header length in 32-bit words in the low nibble.
    pub _bitfields: u8,
    pub tos: u8,
    pub tot_len: be16,
    pub id: be16,
    /// Fragment offset, with the flags in its top three bits.
    pub frag_off: be16,
    pub ttl: u8,
    pub proto: Proto,
    pub check: be16,
    pub source: [u8; 4],
    pub destination: [u8; 4],
}

impl Header {
    pub const LEN: usize = 20;

    /// The header as `default` builds it.
    pub open spec fn initial() -> Header {
        Header {
            _bitfields: 0x45,
            tos: 0,
            tot_len: be16::from_host(0),
            id: be16::from_host(0),
            frag_off: be16::from_host(0),
            ttl: 0,
            proto: Proto { val: 0 },
            check: be16::from_host(0),
            source: [0u8, 0u8, 0u8, 0u8],
            destination: [0u8, 0u8, 0u8, 0u8],
        }
    }

    /// Header length in 32-bit words: bits 0-3 of the first byte.
    pub open spec fn spec_ihl(self) -> u8 {
        self._bitfields & 0xf
    }

    /// IP version: bits 4-7 of the first byte.
    pub open spec fn spec_version(self) -> u8 {
        self._bitfields >> 4u8
    }

    pub fn ihl(&self) -> (r: u8)
        ensures
            r == self.spec_ihl(),
    {
        self._bitfields & 0xf
    }

    /// Sets the header length to the low four bits of `val`, leaving the version as it was.
    pub fn set_ihl(&mut self, val: u8)
        ensures
            *final(self) == (Header {
                _bitfields: (old(self)._bitfields & 0xf0) | (val & 0xf),
                ..*old(self)
            }),
            final(self).spec_ihl() == val & 0xf,
            final(self).spec_version() == old(self).spec_version(),
    {
        let b = self._bitfields;
        assert(((b & 0xf0) | (val & 0xf)) & 0xf == val & 0xf) by (bit_vector);
        assert(((b & 0xf0) | (val & 0xf)) >> 4u8 == b >> 4u8) by (bit_vector);
        self._bitfields = (b & 0xf0) | (val & 0xf);
    }

    pub fn version(&self) -> (r: u8)
        ensures
            r == self.spec_version(),
    {
        self._bitfields >> 4u8
    }

    /// Sets the version to the low four bits of `val`, leaving the header length as it was.
    pub fn set_version(&mut self, val: u8)
        ensures
            *final(self) == (Header {
                _bitfields: (old(self)._bitfields & 0x0f) | (val << 4u8),
                ..*old(self)
            }),
            final(self).spec_version() == val & 0xf,
            final(self).spec_ihl() == old(self).spec_ihl(),
    {
        let b = self._bitfields;
        assert(((b & 0x0f) | (val << 4u8)) >> 4u8 == val & 0xf) by (bit_vector);
        assert(((b & 0x0f) | (val << 4u8)) & 0xf == b & 0xf) by (bit_vector);
        self._bitfields = (b & 0x0f) | (val << 4u8);
    }

    /// Returns the source address field.
    pub fn source(&self) -> (r: Ipv4Addr)
        ensures
            r.spec_octets() == self.source,
    {
        Ipv4Addr::from_octets(self.source)
    }

    /// Returns the destination address field.
    pub fn destination(&self) -> (r: Ipv4Addr)
        ensures
            r.spec_octets() == self.destination,
    {
        Ipv4Addr::from_octets(self.destination)
    }

    /// Sets the source address field.
    pub fn set_source(&mut self, src: Ipv4Addr)
        ensures
            *final(self) == (Header { source: src.spec_octets(), ..*old(self) }),
    {
        self.source = src.octets();
    }

    /// Sets the destination address field.
    pub fn set_destination(&mut self, dst: Ipv4Addr)
        ensures
            *final(self) == (Header { destination: dst.spec_octets(), ..*old(self) }),
    {
        self.destination = dst.octets();
    }

    /// The header's wire bytes.
    fn encode(&self) -> (r: [u8; 20])
        ensures
            r@ == self.wire(),
    {
        let (t, i, f, c) = (
            self.tot_len.to_bytes(),
            self.id.to_bytes(),
            self.frag_off.to_bytes(),
            self.check.to_bytes(),
        );
        let (s, d) = (self.source, self.destination);
        let r = [
            self._bitfields, self.tos, t[0], t[1], i[0], i[1], f[0], f[1],
            self.ttl, self.proto.val, c[0], c[1],
            s[0], s[1], s[2], s[3], d[0], d[1], d[2], d[3],
        ];
        assert(r@ =~= self.wire());
        r
    }
}

impl Default for Header {
    fn default() -> (r: Header)
        ensures
            r == Header::initial(),
    {
        let zero = be16::new(0);
        Header {
            _bitfields: 0x45,
            tos: 0,
            tot_len: zero,
            id: zero,
            frag_off: zero,
            ttl: 0,
            proto: Proto::new(0),
            check: zero,
            source: [0u8, 0u8, 0u8, 0u8],
            destination: [0u8, 0u8, 0u8, 0u8],
        }
    }
}

impl NextHeader for Header {
    open spec fn wire_len() -> nat {
        20
    }

    open spec fn wire(self) -> Seq<u8> {
        seq![self._bitfields, self.tos] + self.tot_len.wire() + self.id.wire()
            + self.frag_off.wire() + seq![self.ttl, self.proto.val] + self.check.wire()
            + self.source@ + self.destination@
    }

    fn len() -> (r: usize) {
        Header::LEN
    }

    proof fn lemma_wire_len(self) {
        self.tot_len.lemma_wire_len();
        self.id.lemma_wire_len();
        self.frag_off.lemma_wire_len();
        self.check.lemma_wire_len();
    }

    fn read_at(packet: &[u8], at: usize) -> (r: Header) {
        let _n = packet.len();
        let r = Header {
            _bitfields: packet[at],
            tos: packet[at + 1],
            tot_len: be16::from_bytes(get_bytes(packet, at + 2)),
            id: be16::from_bytes(get_bytes(packet, at + 4)),
            frag_off: be16::from_bytes(get_bytes(packet, at + 6)),
            ttl: packet[at + 8],
            proto: Proto { val: packet[at + 9] },
            check: be16::from_bytes(get_bytes(packet, at + 10)),
            source: get_bytes(packet, at + 12),
            destination: get_bytes(packet, at + 16),
        };
        assert(r.wire() =~= packet@.subrange(at as int, at + 20));
        r
    }

    fn write_at(&self, packet: &mut [u8], at: usize) {
        put_bytes(packet, at, self.encode());
    }
}

impl AutoNextHeader for Header {
    /// TCP and UDP follow by protocol number; any other protocol is unhandled.
    fn next(&self, at: &Ptr<Header>, frame: Window) -> (r: Result<HeaderPtr, ()>)
        ensures
            self.proto.val == Proto::TCP ==> if at.next_fits::<tcp::Header>(frame) {
                r matches Ok(HeaderPtr::Tcp(p)) && p.addr() == at.next_addr()
            } else {
                r is Err
            },
            self.proto.val == Proto::UDP ==> if at.next_fits::<udp::Header>(frame) {
                r matches Ok(HeaderPtr::Udp(p)) && p.addr() == at.next_addr()
            } else {
                r is Err
            },
            self.proto.val != Proto::TCP && self.proto.val != Proto::UDP ==> r matches Ok(
                HeaderPtr::Unhandled(),
            ),
    {
        if self.proto.val == Proto::TCP {
            match at.next_t::<tcp::Header>(frame) {
                Ok(p) => Ok(HeaderPtr::Tcp(p)),
                Err(()) => Err(()),
            }
        } else if self.proto.val == Proto::UDP {
            match at.next_t::<udp::Header>(frame) {
                Ok(p) => Ok(HeaderPtr::Udp(p)),
                Err(()) => Err(()),
            }
        } else {
            Ok(HeaderPtr::Unhandled())
        }
    }
}

} // verus!
