use vstd::prelude::*;
use crate::{be16, get_bytes, put_bytes, NextHeader, Ptr, Window};

verus! {

/// UDP header, which is present after the IP header.
///
/// Initialize-for-send: `from_frame` sets the length from the distance to the
/// end of the window; `default` is all zero.
#[derive(Debug, Copy, Clone)]
pub struct Header {
    pub source: be16,
    pub destination: be16,
    pub len: be16,
    pub check: be16,
}

impl Header {
    pub const LEN: usize = 8;

    /// The header as `default` builds it.
    pub open spec fn initial() -> Header {
        Header {
            source: be16::from_host(0),
            destination: be16::from_host(0),
            len: be16::from_host(0),
            check: be16::from_host(0),
        }
    }

    /// An all-zero header whose length is the distance from `at` to the end of
    /// `frame`, modulo 2^16.
    pub fn from_frame(at: &Ptr<Header>, frame: Window) -> (r: Header)
        requires
            at.addr() <= frame.end,
        ensures
            r == (Header {
                len: be16::from_host(((frame.end - at.addr()) % 0x10000) as u16),
                ..Header::initial()
            }),
    {
        let len = ((frame.end - at.address()) % 0x10000) as u16;
        Header { len: be16::new(len), ..Header::default() }
    }

    /// The header's wire bytes.
    fn encode(&self) -> (r: [u8; 8])
        ensures
            r@ == self.wire(),
    {
        let (s, d, l, c) = (
            self.source.to_bytes(),
            self.destination.to_bytes(),
            self.len.to_bytes(),
            self.check.to_bytes(),
        );
        let r = [s[0], s[1], d[0], d[1], l[0], l[1], c[0], c[1]];
        assert(r@ =~= self.wire());
        r
    }
}

impl Default for Header {
    fn default() -> (r: Header)
        ensures
            r == Header::initial(),
    {
        let zero = be16::new(0);
        Header { source: zero, destination: zero, len: zero, check: zero }
    }
}

impl NextHeader for Header {
    open spec fn wire_len() -> nat {
        8
    }

    open spec fn wire(self) -> Seq<u8> {
        self.source.wire() + self.destination.wire() + self.len.wire() + self.check.wire()
    }

    fn len() -> (r: usize) {
        Header::LEN
    }

    proof fn lemma_wire_len(self) {
        self.source.lemma_wire_len();
        self.destination.lemma_wire_len();
        self.len.lemma_wire_len();
        self.check.lemma_wire_len();
    }

    fn read_at(packet: &[u8], at: usize) -> (r: Header) {
        let _n = packet.len();
        let r = Header {
            source: be16::from_bytes(get_bytes(packet, at)),
            destination: be16::from_bytes(get_bytes(packet, at + 2)),
            len: be16::from_bytes(get_bytes(packet, at + 4)),
            check: be16::from_bytes(get_bytes(packet, at + 6)),
        };
        assert(r.wire() =~= packet@.subrange(at as int, at + 8));
        r
    }

    fn write_at(&self, packet: &mut [u8], at: usize) {
        put_bytes(packet, at, self.encode());
    }
}

} // verus!
