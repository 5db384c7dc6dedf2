use vstd::prelude::*;
use crate::ip::{Ipv6Addr, Proto};
use crate::{tcp, udp};
use crate::{be16, get_bytes, put_bytes, AutoNextHeader, HeaderPtr, NextHeader, Ptr, Window};

verus! {

/// IPv6 header without extension headers.
///
/// Initialize-for-send: `default` gives version 6 and a hop limit of 64, and
/// `from_frame` also sets the payload length from the distance to the end of
/// the window.
#[derive(Debug, Copy, Clone)]
pub struct Header {
    /// Version (4 bits), traffic class (8 bits) and flow label (20 bits), in wire order.
    pub _bitfields: [u8; 4],
    pub payload_len: be16,
    pub proto: Proto,
    pub hop_limit: u8,
    pub source: [u8; 16],
    pub destination: [u8; 16],
}

impl Header {
    pub const LEN: usize = 40;

    /// The header as `default` builds it.
    pub open spec fn initial() -> Header {
        Header {
            _bitfields: [0x60u8, 0u8, 0u8, 0u8],
            payload_len: be16::from_host(0),
            proto: Proto { val: 0 },
            hop_limit: 64,
            source: [0u8, 0u8, 0u8, 0u8, 0u8, 0u8, 0u8, 0u8, 0u8, 0u8, 0u8, 0u8, 0u8, 0u8, 0u8, 0u8],
            destination: [0u8, 0u8, 0u8, 0u8, 0u8, 0u8, 0u8, 0u8, 0u8, 0u8, 0u8, 0u8, 0u8, 0u8, 0u8, 0u8],
        }
    }

    /// IP version: bits 4-7 of the first byte.
    pub open spec fn spec_version(self) -> u8 {
        self._bitfields[0] >> 4u8
    }

    /// Traffic class: bits 0-3 of the first byte, then bits 4-7 of the second.
    pub open spec fn spec_priority(self) -> u8 {
        ((self._bitfields[0] << 4u8) | (self._bitfields[1] >> 4u8)) as u8
    }

    /// Flow label: bits 0-3 of the second byte, then the third and fourth bytes.
    pub open spec fn spec_flow(self) -> u32 {
        ((((self._bitfields[1] & 0xf) as u32) << 16u32) | ((self._bitfields[2] as u32) << 8u32)
            | (self._bitfields[3] as u32)) as u32
    }

    /// The header that `default` builds, with the payload length set to the
    /// distance from the end of the header at `at` to the end of `frame`,
    /// modulo 2^16.
    pub fn from_frame(at: &Ptr<Header>, frame: Window) -> (r: Header)
        requires
            at.addr() + 40 <= frame.end,
        ensures
            r == (Header {
                payload_len: be16::from_host(((frame.end - at.addr() - 40) % 0x10000) as u16),
                ..Header::initial()
            }),
    {
        let len = ((frame.end - at.address() - Header::LEN) % 0x10000) as u16;
        Header { payload_len: be16::new(len), ..Header::default() }
    }

    pub fn version(&self) -> (r: u8)
        ensures
            r == self.spec_version(),
    {
        self._bitfields[0] >> 4u8
    }

    pub fn priority(&self) -> (r: u8)
        ensures
            r == self.spec_priority(),
    {
        let bits = &self._bitfields;
        (bits[0] << 4u8) | (bits[1] >> 4u8)
    }

    /// Sets the traffic class, leaving the version and the flow label as they were.
    pub fn set_priority(&mut self, val: u8)
        ensures
            *final(self) == (Header {
                _bitfields: [
                    (old(self)._bitfields[0] & 0xf0) | (val >> 4u8),
                    (old(self)._bitfields[1] & 0x0f) | (val << 4u8),
                    old(self)._bitfields[2],
                    old(self)._bitfields[3],
                ],
                ..*old(self)
            }),
            final(self).spec_priority() == val,
            final(self).spec_version() == old(self).spec_version(),
            final(self).spec_flow() == old(self).spec_flow(),
    {
        let bits = self._bitfields;
        let (b0, b1) = (bits[0], bits[1]);
        let n0 = (b0 & 0xf0) | (val >> 4u8);
        let n1 = (b1 & 0x0f) | (val << 4u8);
        assert(n0 == (b0 & 0xf0) | (val >> 4u8) && n1 == (b1 & 0x0f) | (val << 4u8) ==> ((n0
            << 4u8) | (n1 >> 4u8)) == val && n0 >> 4u8 == b0 >> 4u8 && n1 & 0xf == b1 & 0xf)
            by (bit_vector);
        self._bitfields = [n0, n1, bits[2], bits[3]];
    }

    pub fn flow(&self) -> (r: u32)
        ensures
            r == self.spec_flow(),
    {
        let bits = &self._bitfields;
        (((bits[1] & 0xf) as u32) << 16u32) | ((bits[2] as u32) << 8u32) | (bits[3] as u32)
    }

    /// Sets the flow label to the low 20 bits of `val`, leaving the version and
    /// the traffic class as they were.
    pub fn set_flow(&mut self, val: u32)
        ensures
            *final(self) == (Header {
                _bitfields: [
                    old(self)._bitfields[0],
                    (old(self)._bitfields[1] & 0xf0) | (((val >> 16u32) as u8) & 0xf),
                    (val >> 8u32) as u8,
                    val as u8,
                ],
                ..*old(self)
            }),
            final(self).spec_flow() == val & 0xfffff,
            final(self).spec_version() == old(self).spec_version(),
            final(self).spec_priority() == old(self).spec_priority(),
    {
        let bits = self._bitfields;
        let (b0, b1) = (bits[0], bits[1]);
        let n1 = (b1 & 0xf0) | (((val >> 16u32) as u8) & 0xf);
        let n2 = (val >> 8u32) as u8;
        let n3 = val as u8;
        assert(n1 == (b1 & 0xf0) | (((val >> 16u32) as u8) & 0xf) && n2 == (val >> 8u32) as u8
            && n3 == val as u8 ==> ((((n1 & 0xf) as u32) << 16u32) | ((n2 as u32) << 8u32) | (
        n3 as u32)) == val & 0xfffff && n1 >> 4u8 == b1 >> 4u8) by (bit_vector);
        assert(n1 >> 4u8 == b1 >> 4u8 ==> ((b0 << 4u8) | (n1 >> 4u8)) == ((b0 << 4u8) | (b1
            >> 4u8))) by (bit_vector);
        self._bitfields = [b0, n1, n2, n3];
    }

    /// Returns the source address field.
    pub fn source(&self) -> (r: Ipv6Addr)
        ensures
            r.spec_octets() == self.source,
    {
        Ipv6Addr::from_octets(self.source)
    }

    /// Returns the destination address field.
    pub fn destination(&self) -> (r: Ipv6Addr)
        ensures
            r.spec_octets() == self.destination,
    {
        Ipv6Addr::from_octets(self.destination)
    }

    /// Sets the source address field.
    pub fn set_source(&mut self, src: Ipv6Addr)
        ensures
            *final(self) == (Header { source: src.spec_octets(), ..*old(self) }),
    {
        self.source = src.octets();
    }

    /// Sets the destination address field.
    pub fn set_destination(&mut self, dst: Ipv6Addr)
        ensures
            *final(self) == (Header { destination: dst.spec_octets(), ..*old(self) }),
    {
        self.destination = dst.octets();
    }

    /// The header's wire bytes.
    fn encode(&self) -> (r: [u8; 40])
        ensures
            r@ == self.wire(),
    {
        let (b, l) = (self._bitfields, self.payload_len.to_bytes());
        let (s, d) = (self.source, self.destination);
        let r = [
            b[0], b[1], b[2], b[3], l[0], l[1], self.proto.val, self.hop_limit,
            s[0], s[1], s[2], s[3], s[4], s[5], s[6], s[7], s[8], s[9], s[10], s[11], s[12], s[13], s[14], s[15],
            d[0], d[1], d[2], d[3], d[4], d[5], d[6], d[7], d[8], d[9], d[10], d[11], d[12], d[13], d[14], d[15],
        ];
        assert(r@ =~= self.wire());
        r
    }
}

impl Default for Header {
    fn default() -> (r: Header)
        ensures
            r == Header::initial(),
    {
        Header {
            _bitfields: [0x60u8, 0u8, 0u8, 0u8],
            payload_len: be16::new(0),
            proto: Proto::new(0),
            hop_limit: 64,
            source: [0u8, 0u8, 0u8, 0u8, 0u8, 0u8, 0u8, 0u8, 0u8, 0u8, 0u8, 0u8, 0u8, 0u8, 0u8, 0u8],
            destination: [0u8, 0u8, 0u8, 0u8, 0u8, 0u8, 0u8, 0u8, 0u8, 0u8, 0u8, 0u8, 0u8, 0u8, 0u8, 0u8],
        }
    }
}

impl NextHeader for Header {
    open spec fn wire_len() -> nat {
        40
    }

    open spec fn wire(self) -> Seq<u8> {
        self._bitfields@ + self.payload_len.wire() + seq![self.proto.val, self.hop_limit]
            + self.source@ + self.destination@
    }

    fn len() -> (r: usize) {
        Header::LEN
    }

    proof fn lemma_wire_len(self) {
        self.payload_len.lemma_wire_len();
    }

    fn read_at(packet: &[u8], at: usize) -> (r: Header) {
        let _n = packet.len();
        let r = Header {
            _bitfields: get_bytes(packet, at),
            payload_len: be16::from_bytes(get_bytes(packet, at + 4)),
            proto: Proto { val: packet[at + 6] },
            hop_limit: packet[at + 7],
            source: get_bytes(packet, at + 8),
            destination: get_bytes(packet, at + 24),
        };
        assert(r.wire() =~= packet@.subrange(at as int, at + 40));
        r
    }

    fn write_at(&self, packet: &mut [u8], at: usize) {
        put_bytes(packet, at, self.encode());
    }
}

impl AutoNextHeader for Header {
    /// TCP and UDP follow by next-header number; any other value is unhandled.
    fn next(&self, at: &Ptr<Header>, frame: Window) -> (r: Result<HeaderPtr, ()>)
        ensures
            self.proto.val == Proto::TCP ==> if at.next_fits::<tcp::Header>(frame) {
                r matches Ok(HeaderPtr::Tcp(p)) && p.addr() == at.next_addr()
            } else {
                r is Err
            },
            self.proto.val == Proto::UDP ==> if at.next_fits::<udp::Header>(frame) {
                r matches Ok(HeaderPtr::Udp(p)) && p.addr() == at.next_addr()
            } else {
                r is Err
            },
            self.proto.val != Proto::TCP && self.proto.val != Proto::UDP ==> r matches Ok(
                HeaderPtr::Unhandled(),
            ),
    {
        if self.proto.val == Proto::TCP {
            match at.next_t::<tcp::Header>(frame) {
                Ok(p) => Ok(HeaderPtr::Tcp(p)),
                Err(()) => Err(()),
            }
        } else if self.proto.val == Proto::UDP {
            match at.next_t::<udp::Header>(frame) {
                Ok(p) => Ok(HeaderPtr::Udp(p)),
                Err(()) => Err(()),
            }
        } else {
            Ok(HeaderPtr::Unhandled())
        }
    }
}

} // verus!
