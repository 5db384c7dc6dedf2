use vstd::prelude::*;
use crate::eth;
use crate::{
    be16, be32, get_bytes, put_bytes, AutoNextHeader, HeaderPtr, NextHeader, Ptr, Window,
};

verus! {

/// The VXLAN flags byte.
#[derive(Debug, PartialEq, Eq, Structural, Copy, Clone)]
pub struct Flags {
    pub val: u8,
}

impl Flags {
    pub const NO_VNI: u8 = 0;
    /// The bit that marks the VNI as valid.
    pub const HAS_VNI: u8 = 0x08;

    pub fn new(val: u8) -> (r: Flags)
        ensures
            r.val == val,
    {
        Flags { val }
    }
}

/// VXLAN header: flags, a 24-bit VXLAN Network Identifier and reserved bytes.
///
/// Parse-only: nothing in it is filled in or inferred.
#[derive(Debug, Copy, Clone)]
pub struct Header {
    /// Flags
    pub flags: Flags,
    /// Reserved
    pub _reserved3: [u8; 3],
    /// VXLAN Network ID
    pub vni: [u8; 3],
    /// Reserved
    pub _reserved: u8,
}

/// The 16-bit word at index `i` of `bytes`, most significant byte first.
pub open spec fn word_at(bytes: Seq<u8>, i: int) -> u16 {
    (((bytes[2 * i] as u16) << 8u16) | (bytes[2 * i + 1] as u16)) as u16
}

/// Exclusive or of the first `n` 16-bit words of `bytes`, starting from zero.
pub open spec fn xor_words(bytes: Seq<u8>, n: nat) -> u16
    decreases n,
{
    if n == 0 {
        0
    } else {
        (xor_words(bytes, (n - 1) as nat) ^ word_at(bytes, n - 1)) as u16
    }
}

/// The entropy value of an encapsulated Ethernet header: its 14 bytes read as
/// seven network-order words, folded with exclusive or from zero.
pub fn entropy(inner: &eth::Header) -> (r: be16)
    ensures
        r.host() == xor_words(inner.wire(), 7),
{
    let bytes = inner.encode();
    let mut acc = be16::new(0);
    let mut i: usize = 0;
    while i < 7
        invariant
            i <= 7,
            bytes@ == inner.wire(),
            acc.host() == xor_words(inner.wire(), i as nat),
        decreases 7 - i,
    {
        let word = be16::from_bytes([bytes[2 * i], bytes[2 * i + 1]]);
        acc = acc.xor(word);
        i += 1;
    }
    acc
}

/// What flipping the bits `m` of byte `i` does to the word that holds it.
spec fn flip_delta(i: int, m: u8) -> u16 {
    if i % 2 == 0 {
        ((m as u16) << 8u16) as u16
    } else {
        m as u16
    }
}

proof fn lemma_word_flip(w: Seq<u8>, i: int, m: u8, j: int)
    requires
        w.len() == 14,
        0 <= i < 14,
        0 <= j < 7,
    ensures
        word_at(w.update(i, w[i] ^ m), j) == if j == i / 2 {
            word_at(w, j) ^ flip_delta(i, m)
        } else {
            word_at(w, j)
        },
{
    let v = w.update(i, w[i] ^ m);
    let (a, b) = (w[2 * j], w[2 * j + 1]);
    if j == i / 2 {
        if i % 2 == 0 {
            assert(v[2 * j] == a ^ m && v[2 * j + 1] == b);
            assert(((((a ^ m) as u16) << 8u16) | (b as u16)) == ((((a as u16) << 8u16) | (
            b as u16)) ^ ((m as u16) << 8u16))) by (bit_vector);
        } else {
            assert(v[2 * j] == a && v[2 * j + 1] == b ^ m);
            assert((((a as u16) << 8u16) | ((b ^ m) as u16)) == ((((a as u16) << 8u16) | (
            b as u16)) ^ (m as u16))) by (bit_vector);
        }
    } else {
        assert(v[2 * j] == a && v[2 * j + 1] == b);
    }
}

proof fn lemma_xor_words_flip(w: Seq<u8>, i: int, m: u8, n: nat)
    requires
        w.len() == 14,
        0 <= i < 14,
        n <= 7,
    ensures
        xor_words(w.update(i, w[i] ^ m), n) == if i / 2 < n {
            xor_words(w, n) ^ flip_delta(i, m)
        } else {
            xor_words(w, n)
        },
    decreases n,
{
    if n > 0 {
        let v = w.update(i, w[i] ^ m);
        lemma_xor_words_flip(w, i, m, (n - 1) as nat);
        lemma_word_flip(w, i, m, n - 1);
        let (a, b, d) = (xor_words(w, (n - 1) as nat), word_at(w, n - 1), flip_delta(i, m));
        assert((a ^ d) ^ b == (a ^ b) ^ d) by (bit_vector);
        assert(a ^ (b ^ d) == (a ^ b) ^ d) by (bit_vector);
    }
}

/// Flipping any bits of any one byte of an Ethernet header changes its
/// entropy value.
pub proof fn law_entropy_flip(inner: eth::Header, i: int, m: u8)
    requires
        0 <= i < 14,
        m != 0,
    ensures
        xor_words(inner.wire().update(i, inner.wire()[i] ^ m), 7) != xor_words(inner.wire(), 7),
{
    let w = inner.wire();
    inner.lemma_wire_len();
    lemma_xor_words_flip(w, i, m, 7);
    let (x, d) = (xor_words(w, 7), flip_delta(i, m));
    assert(m != 0 ==> ((m as u16) << 8u16) != 0u16) by (bit_vector);
    assert(m != 0 ==> (m as u16) != 0u16) by (bit_vector);
    assert(d != 0 ==> x ^ d != x) by (bit_vector);
}

impl Header {
    pub const LEN: usize = 8;

    /// The header as `default` builds it: all zero.
    pub open spec fn initial() -> Header {
        Header {
            flags: Flags { val: 0 },
            _reserved3: [0u8, 0u8, 0u8],
            vni: [0u8, 0u8, 0u8],
            _reserved: 0,
        }
    }

    /// The VNI, present only where the flag bit is set; it is read from the
    /// three VNI bytes below a zero top byte.
    pub open spec fn spec_vni(self) -> Option<be32> {
        if self.flags.val & Flags::HAS_VNI == 0 {
            None
        } else {
            Some(be32::from_wire([0u8, self.vni[0], self.vni[1], self.vni[2]]))
        }
    }

    /// Returns the VNI in the packet if its flag is set, otherwise returns None.
    pub fn vni(&self) -> (r: Option<be32>)
        ensures
            r == self.spec_vni(),
            r matches Some(v) ==> v.host() == (self.vni[0] as u32) * 0x10000 + (
            self.vni[1] as u32) * 0x100 + (self.vni[2] as u32),
    {
        if self.flags.val & Flags::HAS_VNI == 0 {
            None
        } else {
            let v = be32::from_bytes([0, self.vni[0], self.vni[1], self.vni[2]]);
            proof {
                v.lemma_host_from_wire();
                let (a, b, c) = (self.vni[0], self.vni[1], self.vni[2]);
                assert(((0u8 as u32) << 24u32) | ((a as u32) << 16u32) | ((b as u32) << 8u32) | (
                c as u32) == (a as u32) * 0x10000 + (b as u32) * 0x100 + (c as u32))
                    by (bit_vector);
            }
            Some(v)
        }
    }

    /// Sets the VNI to the value given, silently discarding the highest order
    /// byte, and sets the flag that marks it valid.
    pub fn set_vni(&mut self, vni: be32)
        ensures
            *final(self) == (Header {
                flags: Flags { val: Flags::HAS_VNI },
                vni: [vni.wire()[1], vni.wire()[2], vni.wire()[3]],
                ..*old(self)
            }),
            final(self).spec_vni() matches Some(v) && v.host() == vni.host() & 0x00ff_ffff,
    {
        let bytes = vni.to_bytes();
        self.flags = Flags::new(Flags::HAS_VNI);
        self.vni = [bytes[1], bytes[2], bytes[3]];
        proof {
            vni.lemma_host_from_wire();
            let v = be32::from_wire([0u8, bytes[1], bytes[2], bytes[3]]);
            assert(v.wire() =~= seq![0u8, bytes[1], bytes[2], bytes[3]]) by {
                be32::lemma_from_wire([0u8, bytes[1], bytes[2], bytes[3]]);
            }
            v.lemma_host_from_wire();
            let (w0, w1, w2, w3) = (bytes[0], bytes[1], bytes[2], bytes[3]);
            assert(((0u8 as u32) << 24u32) | ((w1 as u32) << 16u32) | ((w2 as u32) << 8u32) | (
            w3 as u32) == (((w0 as u32) << 24u32) | ((w1 as u32) << 16u32) | ((w2 as u32) << 8u32)
                | (w3 as u32)) & 0x00ff_ffff) by (bit_vector);
            assert(Flags::HAS_VNI & Flags::HAS_VNI != 0) by (bit_vector);
            assert(self.spec_vni() == Some(v));
        }
    }

    /// Clears the flag that marks the VNI valid; the VNI bytes are left as they were.
    pub fn clear_vni(&mut self)
        ensures
            *final(self) == (Header { flags: Flags { val: Flags::NO_VNI }, ..*old(self) }),
            final(self).spec_vni() is None,
    {
        self.flags = Flags::new(Flags::NO_VNI);
        assert(Flags::NO_VNI & Flags::HAS_VNI == 0) by (bit_vector);
    }

    /// The Ethernet header that follows this one, at `at`, if it ends inside `frame`.
    pub fn ethernet(&self, at: &Ptr<Header>, frame: Window) -> (r: Result<Ptr<eth::Header>, ()>)
        ensures
            r is Ok <==> at.next_fits::<eth::Header>(frame),
            r matches Ok(p) ==> p.addr() == at.next_addr(),
    {
        at.next_t::<eth::Header>(frame)
    }

    /// The outer UDP source port for this tunnel: the entropy value of the
    /// encapsulated Ethernet header, or zero where that header does not fit
    /// inside `frame`.
    pub fn source_port(&self, at: &Ptr<Header>, packet: &[u8], frame: Window) -> (r: be16)
        requires
            frame.end <= packet@.len(),
        ensures
            at.next_fits::<eth::Header>(frame) ==> r.host() == xor_words(
                packet@.subrange(at.next_addr() as int, (at.next_addr() + 14) as int),
                7,
            ),
            !at.next_fits::<eth::Header>(frame) ==> r.host() == 0,
    {
        match self.ethernet(at, frame) {
            Err(()) => be16::new(0),
            Ok(e) => entropy(&e.read(packet)),
        }
    }

    /// The header's wire bytes.
    fn encode(&self) -> (r: [u8; 8])
        ensures
            r@ == self.wire(),
    {
        let (f, s, v) = (self.flags.val, self._reserved3, self.vni);
        let r = [f, s[0], s[1], s[2], v[0], v[1], v[2], self._reserved];
        assert(r@ =~= self.wire());
        r
    }
}

impl Default for Header {
    fn default() -> (r: Header)
        ensures
            r == Header::initial(),
    {
        Header {
            flags: Flags::new(0),
            _reserved3: [0u8, 0u8, 0u8],
            vni: [0u8, 0u8, 0u8],
            _reserved: 0,
        }
    }
}

impl NextHeader for Header {
    open spec fn wire_len() -> nat {
        8
    }

    open spec fn wire(self) -> Seq<u8> {
        seq![self.flags.val] + self._reserved3@ + self.vni@ + seq![self._reserved]
    }

    fn len() -> (r: usize) {
        Header::LEN
    }

    proof fn lemma_wire_len(self) {
    }

    fn read_at(packet: &[u8], at: usize) -> (r: Header) {
        let _n = packet.len();
        let r = Header {
            flags: Flags { val: packet[at] },
            _reserved3: get_bytes(packet, at + 1),
            vni: get_bytes(packet, at + 4),
            _reserved: packet[at + 7],
        };
        assert(r.wire() =~= packet@.subrange(at as int, at + 8));
        r
    }

    fn write_at(&self, packet: &mut [u8], at: usize) {
        put_bytes(packet, at, self.encode());
    }
}

impl AutoNextHeader for Header {
    /// Ethernet always follows.
    fn next(&self, at: &Ptr<Header>, frame: Window) -> (r: Result<HeaderPtr, ()>)
        ensures
            if at.next_fits::<eth::Header>(frame) {
                r matches Ok(HeaderPtr::Eth(p)) && p.addr() == at.next_addr()
            } else {
                r is Err
            },
    {
        match self.ethernet(at, frame) {
            Ok(p) => Ok(HeaderPtr::Eth(p)),
            Err(()) => Err(()),
        }
    }
}

} // verus!
