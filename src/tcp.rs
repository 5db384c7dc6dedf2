use vstd::prelude::*;
use crate::{be16, be32, get_bytes, put_bytes, NextHeader};

verus! {

pub const TCP_HDR_LEN: usize = 20;

/// TCP header without options, which is present after the IP header.
///
/// Parse-only: nothing in it is filled in or inferred.
#[derive(Debug, Copy, Clone)]
pub struct Header {
    pub source: be16,
    pub dest: be16,
    pub seq: be32,
    pub ack_seq: be32,
    /// Data offset and reserved bits, then the flags FIN (0x01), SYN (0x02),
    /// RST (0x04), PSH (0x08), ACK (0x10), URG (0x20), ECE (0x40) and CWR (0x80).
    pub _bitfields: [u8; 2],
    pub window: be16,
    pub check: be16,
    pub urg_ptr: be16,
}

impl Header {
    pub const LEN: usize = 20;

    /// The header's wire bytes.
    fn encode(&self) -> (r: [u8; 20])
        ensures
            r@ == self.wire(),
    {
        let (s, d, q, a) = (
            self.source.to_bytes(),
            self.dest.to_bytes(),
            self.seq.to_bytes(),
            self.ack_seq.to_bytes(),
        );
        let (b, w, c, u) = (
            self._bitfields,
            self.window.to_bytes(),
            self.check.to_bytes(),
            self.urg_ptr.to_bytes(),
        );
        let r = [
            s[0], s[1], d[0], d[1], q[0], q[1], q[2], q[3], a[0], a[1], a[2], a[3],
            b[0], b[1], w[0], w[1], c[0], c[1], u[0], u[1],
        ];
        assert(r@ =~= self.wire());
        r
    }
}

impl NextHeader for Header {
    open spec fn wire_len() -> nat {
        20
    }

    open spec fn wire(self) -> Seq<u8> {
        self.source.wire() + self.dest.wire() + self.seq.wire() + self.ack_seq.wire()
            + self._bitfields@ + self.window.wire() + self.check.wire() + self.urg_ptr.wire()
    }

    fn len() -> (r: usize) {
        Header::LEN
    }

    proof fn lemma_wire_len(self) {
        self.source.lemma_wire_len();
        self.dest.lemma_wire_len();
        self.seq.lemma_host_from_wire();
        self.ack_seq.lemma_host_from_wire();
        self.window.lemma_wire_len();
        self.check.lemma_wire_len();
        self.urg_ptr.lemma_wire_len();
    }

    fn read_at(packet: &[u8], at: usize) -> (r: Header) {
        let _n = packet.len();
        let r = Header {
            source: be16::from_bytes(get_bytes(packet, at)),
            dest: be16::from_bytes(get_bytes(packet, at + 2)),
            seq: be32::from_bytes(get_bytes(packet, at + 4)),
            ack_seq: be32::from_bytes(get_bytes(packet, at + 8)),
            _bitfields: get_bytes(packet, at + 12),
            window: be16::from_bytes(get_bytes(packet, at + 14)),
            check: be16::from_bytes(get_bytes(packet, at + 16)),
            urg_ptr: be16::from_bytes(get_bytes(packet, at + 18)),
        };
        assert(r.wire() =~= packet@.subrange(at as int, at + 20));
        r
    }

    fn write_at(&self, packet: &mut [u8], at: usize) {
        put_bytes(packet, at, self.encode());
    }
}

} // verus!
