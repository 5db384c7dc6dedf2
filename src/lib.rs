use vstd::prelude::*;

pub mod arp;
pub mod ebpf;
pub mod eth;
pub mod ip;
pub mod ipv4;
pub mod ipv6;
pub mod meta;
pub mod tcp;
pub mod udp;
pub mod vxlan;

verus! {

/// A 16-bit integer held in network byte order.
///
/// The field holds the two wire bytes, the first one in its low-order bits, so
/// that on a little-endian machine its memory is exactly the wire encoding.
#[allow(non_camel_case_types)]
#[derive(Debug, Default, PartialEq, Eq, Structural, Copy, Clone)]
pub struct be16 {
    val: u16,
}

impl be16 {
    /// The two bytes as they stand on the wire.
    pub closed spec fn wire(self) -> Seq<u8> {
        seq![self.val as u8, (self.val >> 8u16) as u8]
    }

    /// The value in host order: the wire bytes read most significant first.
    pub open spec fn host(self) -> u16 {
        (((self.wire()[0] as u16) << 8u16) | (self.wire()[1] as u16)) as u16
    }

    /// The network-order integer whose host-order value is `value`.
    pub closed spec fn from_host(value: u16) -> be16 {
        be16 { val: ((value >> 8u16) | (value << 8u16)) as u16 }
    }

    /// The network-order integer whose wire bytes are `bytes`.
    pub closed spec fn from_wire(bytes: [u8; 2]) -> be16 {
        be16 { val: ((bytes[0] as u16) | ((bytes[1] as u16) << 8u16)) as u16 }
    }

    /// The wire bytes as an array.
    pub closed spec fn wire_array(self) -> [u8; 2] {
        [self.val as u8, (self.val >> 8u16) as u8]
    }

    /// Bitwise exclusive or of the stored bytes.
    pub closed spec fn xor_spec(self, rhs: be16) -> be16 {
        be16 { val: self.val ^ rhs.val }
    }

    /// A 16-bit value has two wire bytes.
    pub proof fn lemma_wire_len(self)
        ensures
            self.wire().len() == 2,
    {
    }

    /// Builds the value whose host-order reading is `value`.
    pub fn new(value: u16) -> (r: be16)
        ensures
            r == be16::from_host(value),
            r.host() == value,
    {
        let r = be16 { val: (value >> 8u16) | (value << 8u16) };
        let v = r.val;
        assert(v == ((value >> 8u16) | (value << 8u16)) ==> ((((v as u8) as u16) << 8u16) | (((v
            >> 8u16) as u8) as u16)) == value) by (bit_vector);
        r
    }

    /// The value in host order.
    pub fn to_host(self) -> (r: u16)
        ensures
            r == self.host(),
    {
        let v = self.val;
        (((v as u8) as u16) << 8u16) | (((v >> 8u16) as u8) as u16)
    }

    /// Takes two bytes already in wire order, with no swap.
    pub fn from_bytes(bytes: [u8; 2]) -> (r: be16)
        ensures
            r == be16::from_wire(bytes),
            r.wire() == bytes@,
    {
        let (b0, b1) = (bytes[0], bytes[1]);
        let v = (b0 as u16) | ((b1 as u16) << 8u16);
        assert(v == ((b0 as u16) | ((b1 as u16) << 8u16)) ==> v as u8 == b0 && (v >> 8u16) as u8
            == b1) by (bit_vector);
        let r = be16 { val: v };
        assert(r.wire() =~= bytes@);
        r
    }

    /// The two stored bytes, in wire order, with no swap.
    pub fn to_bytes(self) -> (r: [u8; 2])
        ensures
            r == self.wire_array(),
            r@ == self.wire(),
    {
        let r = [self.val as u8, (self.val >> 8u16) as u8];
        assert(r@ =~= self.wire());
        r
    }

    /// Bitwise exclusive or of the stored bytes; it commutes with the byte order.
    pub fn xor(self, rhs: be16) -> (r: be16)
        ensures
            r == self.xor_spec(rhs),
            r.host() == self.host() ^ rhs.host(),
            r.wire() == seq![self.wire()[0] ^ rhs.wire()[0], self.wire()[1] ^ rhs.wire()[1]],
    {
        let (a, b) = (self.val, rhs.val);
        let r = be16 { val: a ^ b };
        assert((a ^ b) as u8 == (a as u8) ^ (b as u8) && ((a ^ b) >> 8u16) as u8 == ((a >> 8u16)
            as u8) ^ ((b >> 8u16) as u8)) by (bit_vector);
        assert(((((a ^ b) as u8) as u16) << 8u16) | ((((a ^ b) >> 8u16) as u8) as u16) == (((((
        a as u8) as u16) << 8u16) | (((a >> 8u16) as u8) as u16)) ^ ((((b as u8) as u16) << 8u16)
            | (((b >> 8u16) as u8) as u16)))) by (bit_vector);
        assert(r.wire() =~= seq![self.wire()[0] ^ rhs.wire()[0], self.wire()[1] ^ rhs.wire()[1]]);
        r
    }
}

impl From<u16> for be16 {
    fn from(value: u16) -> (r: be16) {
        be16::new(value)
    }
}

impl vstd::std_specs::convert::FromSpecImpl<u16> for be16 {
    open spec fn obeys_from_spec() -> bool {
        true
    }

    open spec fn from_spec(v: u16) -> be16 {
        be16::from_host(v)
    }
}

impl From<be16> for u16 {
    fn from(be: be16) -> (r: u16) {
        be.to_host()
    }
}

impl vstd::std_specs::convert::FromSpecImpl<be16> for u16 {
    open spec fn obeys_from_spec() -> bool {
        true
    }

    open spec fn from_spec(v: be16) -> u16 {
        v.host()
    }
}

impl From<[u8; 2]> for be16 {
    fn from(value: [u8; 2]) -> (r: be16) {
        be16::from_bytes(value)
    }
}

impl vstd::std_specs::convert::FromSpecImpl<[u8; 2]> for be16 {
    open spec fn obeys_from_spec() -> bool {
        true
    }

    open spec fn from_spec(v: [u8; 2]) -> be16 {
        be16::from_wire(v)
    }
}

impl From<be16> for [u8; 2] {
    fn from(value: be16) -> (r: [u8; 2]) {
        value.to_bytes()
    }
}

impl vstd::std_specs::convert::FromSpecImpl<be16> for [u8; 2] {
    open spec fn obeys_from_spec() -> bool {
        true
    }

    open spec fn from_spec(v: be16) -> [u8; 2] {
        v.wire_array()
    }
}

impl core::ops::BitXor for be16 {
    type Output = be16;

    fn bitxor(self, rhs: be16) -> (r: be16) {
        self.xor(rhs)
    }
}

impl vstd::std_specs::ops::BitXorSpecImpl for be16 {
    open spec fn obeys_bitxor_spec() -> bool {
        true
    }

    open spec fn bitxor_req(self, rhs: be16) -> bool {
        true
    }

    open spec fn bitxor_spec(self, rhs: be16) -> be16 {
        self.xor_spec(rhs)
    }
}

/// A 32-bit integer held in network byte order.
///
/// It is held as two network-order halves, most significant first, so that a
/// header holding it keeps the 2-byte alignment of the wire layout.
#[allow(non_camel_case_types)]
#[derive(Debug, Default, PartialEq, Eq, Structural, Copy, Clone)]
pub struct be32 {
    hi: be16,
    lo: be16,
}

impl be32 {
    /// The four bytes as they stand on the wire.
    pub closed spec fn wire(self) -> Seq<u8> {
        self.hi.wire() + self.lo.wire()
    }

    /// The value in host order: the wire bytes read most significant first.
    pub closed spec fn host(self) -> u32 {
        (((self.hi.host() as u32) << 16u32) | (self.lo.host() as u32)) as u32
    }

    /// The network-order integer whose host-order value is `value`.
    pub closed spec fn from_host(value: u32) -> be32 {
        be32 { hi: be16::from_host((value >> 16u32) as u16), lo: be16::from_host(value as u16) }
    }

    /// The network-order integer whose wire bytes are `bytes`.
    pub closed spec fn from_wire(bytes: [u8; 4]) -> be32 {
        be32 {
            hi: be16::from_wire([bytes[0], bytes[1]]),
            lo: be16::from_wire([bytes[2], bytes[3]]),
        }
    }

    /// The wire bytes as an array.
    pub closed spec fn wire_array(self) -> [u8; 4] {
        [
            self.hi.wire_array()[0],
            self.hi.wire_array()[1],
            self.lo.wire_array()[0],
            self.lo.wire_array()[1],
        ]
    }

    /// Bitwise exclusive or of the stored bytes.
    pub closed spec fn xor_spec(self, rhs: be32) -> be32 {
        be32 { hi: self.hi.xor_spec(rhs.hi), lo: self.lo.xor_spec(rhs.lo) }
    }

    /// The value built from four wire bytes has those wire bytes.
    pub proof fn lemma_from_wire(bytes: [u8; 4])
        ensures
            be32::from_wire(bytes).wire() == bytes@,
    {
        let v = be32::from_wire(bytes);
        let (b0, b1, b2, b3) = (bytes[0], bytes[1], bytes[2], bytes[3]);
        let (h, l) = (((b0 as u16) | ((b1 as u16) << 8u16)) as u16, ((b2 as u16) | ((b3 as u16)
            << 8u16)) as u16);
        assert(h == ((b0 as u16) | ((b1 as u16) << 8u16)) ==> h as u8 == b0 && (h >> 8u16) as u8
            == b1) by (bit_vector);
        assert(l == ((b2 as u16) | ((b3 as u16) << 8u16)) ==> l as u8 == b2 && (l >> 8u16) as u8
            == b3) by (bit_vector);
        assert(v.wire() =~= bytes@);
    }

    /// The host-order value read from the wire bytes, most significant first.
    pub proof fn lemma_host_from_wire(self)
        ensures
            self.wire().len() == 4,
            self.host() == ((self.wire()[0] as u32) << 24u32) | ((self.wire()[1] as u32) << 16u32)
                | ((self.wire()[2] as u32) << 8u32) | (self.wire()[3] as u32),
    {
        let (w0, w1, w2, w3) = (self.wire()[0], self.wire()[1], self.wire()[2], self.wire()[3]);
        assert(self.hi.wire()[0] == w0 && self.hi.wire()[1] == w1);
        assert(self.lo.wire()[0] == w2 && self.lo.wire()[1] == w3);
        let h = self.hi.host();
        let l = self.lo.host();
        assert(h == ((w0 as u16) << 8u16) | (w1 as u16) && l == ((w2 as u16) << 8u16) | (w3 as u16)
            ==> ((h as u32) << 16u32) | (l as u32) == ((w0 as u32) << 24u32) | ((w1 as u32)
            << 16u32) | ((w2 as u32) << 8u32) | (w3 as u32)) by (bit_vector);
    }

    /// Builds the value whose host-order reading is `value`.
    pub fn new(value: u32) -> (r: be32)
        ensures
            r == be32::from_host(value),
            r.host() == value,
    {
        let hi = be16::new((value >> 16u32) as u16);
        let lo = be16::new(value as u16);
        assert((((((value >> 16u32) as u16) as u32) << 16u32) | ((value as u16) as u32)) == value)
            by (bit_vector);
        be32 { hi, lo }
    }

    /// The value in host order.
    pub fn to_host(self) -> (r: u32)
        ensures
            r == self.host(),
    {
        ((self.hi.to_host() as u32) << 16u32) | (self.lo.to_host() as u32)
    }

    /// Takes four bytes already in wire order, with no swap.
    pub fn from_bytes(bytes: [u8; 4]) -> (r: be32)
        ensures
            r == be32::from_wire(bytes),
            r.wire() == bytes@,
    {
        let r = be32 {
            hi: be16::from_bytes([bytes[0], bytes[1]]),
            lo: be16::from_bytes([bytes[2], bytes[3]]),
        };
        assert(r.wire() =~= bytes@);
        r
    }

    /// The four stored bytes, in wire order, with no swap.
    pub fn to_bytes(self) -> (r: [u8; 4])
        ensures
            r == self.wire_array(),
            r@ == self.wire(),
    {
        let h = self.hi.to_bytes();
        let l = self.lo.to_bytes();
        let r = [h[0], h[1], l[0], l[1]];
        assert(r@ =~= self.wire());
        r
    }

    /// Bitwise exclusive or of the stored bytes; it commutes with the byte order.
    pub fn xor(self, rhs: be32) -> (r: be32)
        ensures
            r == self.xor_spec(rhs),
            r.host() == self.host() ^ rhs.host(),
    {
        let r = be32 { hi: self.hi.xor(rhs.hi), lo: self.lo.xor(rhs.lo) };
        proof {
            lemma_xor_halves(self.hi.host(), self.lo.host(), rhs.hi.host(), rhs.lo.host());
        }
        r
    }
}

proof fn lemma_xor_halves(ah: u16, al: u16, bh: u16, bl: u16)
    ensures
        ((((ah ^ bh) as u32) << 16u32) | ((al ^ bl) as u32)) == ((((ah as u32) << 16u32) | (
        al as u32)) ^ (((bh as u32) << 16u32) | (bl as u32))),
{
    assert(((((ah ^ bh) as u32) << 16u32) | ((al ^ bl) as u32)) == ((((ah as u32) << 16u32) | (
    al as u32)) ^ (((bh as u32) << 16u32) | (bl as u32)))) by (bit_vector);
}

impl From<u32> for be32 {
    fn from(value: u32) -> (r: be32) {
        be32::new(value)
    }
}

impl vstd::std_specs::convert::FromSpecImpl<u32> for be32 {
    open spec fn obeys_from_spec() -> bool {
        true
    }

    open spec fn from_spec(v: u32) -> be32 {
        be32::from_host(v)
    }
}

impl From<be32> for u32 {
    fn from(be: be32) -> (r: u32) {
        be.to_host()
    }
}

impl vstd::std_specs::convert::FromSpecImpl<be32> for u32 {
    open spec fn obeys_from_spec() -> bool {
        true
    }

    open spec fn from_spec(v: be32) -> u32 {
        v.host()
    }
}

impl From<[u8; 4]> for be32 {
    fn from(value: [u8; 4]) -> (r: be32) {
        be32::from_bytes(value)
    }
}

impl vstd::std_specs::convert::FromSpecImpl<[u8; 4]> for be32 {
    open spec fn obeys_from_spec() -> bool {
        true
    }

    open spec fn from_spec(v: [u8; 4]) -> be32 {
        be32::from_wire(v)
    }
}

impl From<be32> for [u8; 4] {
    fn from(value: be32) -> (r: [u8; 4]) {
        value.to_bytes()
    }
}

impl vstd::std_specs::convert::FromSpecImpl<be32> for [u8; 4] {
    open spec fn obeys_from_spec() -> bool {
        true
    }

    open spec fn from_spec(v: be32) -> [u8; 4] {
        v.wire_array()
    }
}

impl core::ops::BitXor for be32 {
    type Output = be32;

    fn bitxor(self, rhs: be32) -> (r: be32) {
        self.xor(rhs)
    }
}

impl vstd::std_specs::ops::BitXorSpecImpl for be32 {
    open spec fn obeys_bitxor_spec() -> bool {
        true
    }

    open spec fn bitxor_req(self, rhs: be32) -> bool {
        true
    }

    open spec fn bitxor_spec(self, rhs: be32) -> be32 {
        self.xor_spec(rhs)
    }
}

/// The extent `[start, end)` of a packet buffer that may be read during one
/// processing pass; positions are indices into that buffer.
#[derive(Debug, PartialEq, Eq, Structural, Copy, Clone)]
pub struct Window {
    pub start: usize,
    pub end: usize,
}

/// `s` with the bytes from position `at` on replaced by `w`.
pub open spec fn splice(s: Seq<u8>, at: int, w: Seq<u8>) -> Seq<u8> {
    s.subrange(0, at) + w + s.subrange(at + w.len(), s.len() as int)
}

/// The `N` bytes of `packet` from position `at` on.
pub(crate) fn get_bytes<const N: usize>(packet: &[u8], at: usize) -> (r: [u8; N])
    requires
        at + N <= packet@.len(),
    ensures
        r@ == packet@.subrange(at as int, at + N),
{
    let n = packet.len();
    let mut r = [0u8; N];
    let mut i: usize = 0;
    while i < N
        invariant
            i <= N,
            at + N <= packet@.len(),
            n == packet@.len(),
            r@.len() == N,
            forall|j: int| 0 <= j < i ==> r@[j] == packet@[at + j],
        decreases N - i,
    {
        r[i] = packet[at + i];
        i += 1;
    }
    assert(r@ =~= packet@.subrange(at as int, at + N));
    r
}

/// Writes `bytes` into `packet` from position `at` on.
pub(crate) fn put_bytes<const N: usize>(packet: &mut [u8], at: usize, bytes: [u8; N])
    requires
        at + N <= old(packet)@.len(),
    ensures
        final(packet)@ == splice(old(packet)@, at as int, bytes@),
{
    let n = packet.len();
    let mut i: usize = 0;
    while i < N
        invariant
            i <= N,
            at + N <= packet@.len(),
            packet@.len() == old(packet)@.len(),
            n == packet@.len(),
            forall|j: int| 0 <= j < at || at + i <= j < packet@.len() ==> packet@[j] == old(
                packet,
            )@[j],
            forall|j: int| 0 <= j < i ==> packet@[at + j] == bytes@[j],
        decreases N - i,
    {
        packet[at + i] = bytes[i];
        i += 1;
    }
    assert(packet@ =~= splice(old(packet)@, at as int, bytes@));
}

/// A header type with a fixed wire layout, which a cursor can advance to or
/// past (see [`Ptr::next_t`]).
pub trait NextHeader: Sized {
    /// The header's size on the wire, in bytes.
    spec fn wire_len() -> nat;

    /// The header's bytes as they stand on the wire.
    spec fn wire(self) -> Seq<u8>;

    /// The header's size on the wire, in bytes.
    fn len() -> (r: usize)
        ensures
            r == Self::wire_len(),
            r > 0,
    ;

    /// The wire bytes are as many as the wire size says.
    proof fn lemma_wire_len(self)
        ensures
            self.wire().len() == Self::wire_len(),
    ;

    /// Reads the header whose bytes stand in `packet` from position `at` on.
    fn read_at(packet: &[u8], at: usize) -> (r: Self)
        requires
            at + Self::wire_len() <= packet@.len(),
        ensures
            r.wire() == packet@.subrange(at as int, at + Self::wire_len()),
    ;

    /// Writes the header's bytes into `packet` from position `at` on.
    fn write_at(&self, packet: &mut [u8], at: usize)
        requires
            at + Self::wire_len() <= old(packet)@.len(),
        ensures
            final(packet)@ == splice(old(packet)@, at as int, self.wire()),
    ;
}

/// A typed position in a packet buffer, checked against a window when it was made.
pub struct Ptr<T> {
    pointer: usize,
    header: core::marker::PhantomData<T>,
}

impl<T: NextHeader> Ptr<T> {
    /// The position of the header in the packet buffer.
    pub closed spec fn addr(self) -> nat {
        self.pointer as nat
    }

    /// The position just past this header.
    pub open spec fn next_addr(self) -> nat {
        self.addr() + T::wire_len()
    }

    /// A header of type `U` just past this one ends inside `frame`.
    pub open spec fn next_fits<U: NextHeader>(self, frame: Window) -> bool {
        self.next_addr() + U::wire_len() <= frame.end
    }

    /// A header of type `T` at `address` lies wholly inside `frame`.
    pub open spec fn fits(address: int, frame: Window) -> bool {
        frame.start <= address && address + T::wire_len() <= frame.end
    }

    /// A cursor at `pointer`; no check is made.
    pub fn new(pointer: usize) -> (r: Ptr<T>)
        ensures
            r.addr() == pointer,
    {
        Ptr { pointer, header: core::marker::PhantomData }
    }

    /// The position of the header in the packet buffer.
    pub fn address(&self) -> (r: usize)
        ensures
            r == self.addr(),
    {
        self.pointer
    }

    /// A cursor at `address`, if a header of type `T` there lies wholly inside `frame`.
    pub fn construct(address: usize, frame: Window) -> (r: Result<Ptr<T>, ()>)
        ensures
            r is Ok <==> Self::fits(address as int, frame),
            r matches Ok(p) ==> p.addr() == address,
    {
        if frame.start <= address && address <= frame.end && T::len() <= frame.end - address {
            Ok(Ptr::new(address))
        } else {
            Err(())
        }
    }

    /// Signed distance in bytes from the start of `frame` to this cursor.
    pub fn offset(&self, frame: Window) -> (r: i32)
        requires
            -0x8000_0000 <= self.addr() - frame.start <= 0x7fff_ffff,
        ensures
            r == self.addr() - frame.start,
    {
        if self.pointer >= frame.start {
            (self.pointer - frame.start) as i32
        } else {
            (0i64 - (frame.start - self.pointer) as i64) as i32
        }
    }

    /// Reads the header at this cursor.
    pub fn read(&self, packet: &[u8]) -> (r: T)
        requires
            self.addr() + T::wire_len() <= packet@.len(),
        ensures
            r.wire() == packet@.subrange(self.addr() as int, (self.addr() + T::wire_len()) as int),
    {
        T::read_at(packet, self.pointer)
    }

    /// Writes `value` over the header at this cursor.
    pub fn write(&self, packet: &mut [u8], value: &T)
        requires
            self.addr() + T::wire_len() <= old(packet)@.len(),
        ensures
            final(packet)@ == splice(old(packet)@, self.addr() as int, value.wire()),
    {
        value.write_at(packet, self.pointer)
    }

    /// The cursor just past this header, read as a header of type `U`, if that
    /// header ends inside `frame`.
    pub fn next_t<U: NextHeader>(&self, frame: Window) -> (r: Result<Ptr<U>, ()>)
        ensures
            r is Ok <==> self.next_fits::<U>(frame),
            r matches Ok(p) ==> p.addr() == self.next_addr(),
    {
        let (len_t, len_u) = (T::len(), U::len());
        if self.pointer <= frame.end && len_t <= frame.end - self.pointer && len_u <= frame.end
            - self.pointer - len_t {
            Ok(Ptr::new(self.pointer + len_t))
        } else {
            Err(())
        }
    }
}

/// A cursor tagged with the type of header it reached, or `Unhandled` where the
/// protocol indicator names no type that is interpreted here. `Unhandled` is
/// not an error: the caller may drop the packet, pass it on or fall back.
pub enum HeaderPtr {
    Arp(Ptr<arp::Header>),
    Eth(Ptr<eth::Header>),
    Ipv4(Ptr<ipv4::Header>),
    Ipv6(Ptr<ipv6::Header>),
    Tcp(Ptr<tcp::Header>),
    Udp(Ptr<udp::Header>),
    Vxlan(Ptr<vxlan::Header>),
    Unhandled(),
}

/// A header whose successor's type it names itself.
pub trait AutoNextHeader: NextHeader {
    /// Returns the next header where its type can be determined from this
    /// header, which stands at `at`. For example, an Ethernet header whose
    /// EtherType is `0x86DD` gives a [`HeaderPtr::Ipv6`] just past it.
    fn next(&self, at: &Ptr<Self>, frame: Window) -> (r: Result<HeaderPtr, ()>);
}

/// In a window `[b, b + l)`, a header fits at the start exactly when its size
/// is at most `l`, and a header of nonzero size never fits at the end.
pub proof fn law_construct_window_edges<T: NextHeader>(b: usize, l: usize)
    requires
        b + l <= usize::MAX,
        T::wire_len() > 0,
    ensures
        Ptr::<T>::fits(b as int, Window { start: b, end: (b + l) as usize }) <==> T::wire_len()
            <= l,
        !Ptr::<T>::fits((b + l) as int, Window { start: b, end: (b + l) as usize }),
{
}

/// Reading back a value stored in network order gives the value that was stored.
pub proof fn law_be16_round_trip(x: u16)
    ensures
        be16::from_host(x).host() == x,
{
    let v = ((x >> 8u16) | (x << 8u16)) as u16;
    assert(v == ((x >> 8u16) | (x << 8u16)) ==> ((((v as u8) as u16) << 8u16) | (((v >> 8u16)
        as u8) as u16)) == x) by (bit_vector);
}

/// Exclusive or on the stored bytes equals exclusive or of the host-order values.
pub proof fn law_be16_xor(a: u16, b: u16)
    ensures
        be16::from_host(a).xor_spec(be16::from_host(b)).host() == a ^ b,
{
    let va = ((a >> 8u16) | (a << 8u16)) as u16;
    let vb = ((b >> 8u16) | (b << 8u16)) as u16;
    let v = va ^ vb;
    assert(va == ((a >> 8u16) | (a << 8u16)) && vb == ((b >> 8u16) | (b << 8u16)) && v == va ^ vb
        ==> ((((v as u8) as u16) << 8u16) | (((v >> 8u16) as u8) as u16)) == a ^ b)
        by (bit_vector);
}

/// Reading back a 32-bit value stored in network order gives the value that was stored.
pub proof fn law_be32_round_trip(x: u32)
    ensures
        be32::from_host(x).host() == x,
{
    law_be16_round_trip((x >> 16u32) as u16);
    law_be16_round_trip(x as u16);
    assert((((((x >> 16u32) as u16) as u32) << 16u32) | ((x as u16) as u32)) == x) by (bit_vector);
}

/// Exclusive or on the stored bytes equals exclusive or of the host-order 32-bit values.
pub proof fn law_be32_xor(a: u32, b: u32)
    ensures
        be32::from_host(a).xor_spec(be32::from_host(b)).host() == a ^ b,
{
    let x = be32::from_host(a);
    let y = be32::from_host(b);
    law_be16_xor((a >> 16u32) as u16, (b >> 16u32) as u16);
    law_be16_xor(a as u16, b as u16);
    law_be16_round_trip((a >> 16u32) as u16);
    law_be16_round_trip((b >> 16u32) as u16);
    law_be16_round_trip(a as u16);
    law_be16_round_trip(b as u16);
    law_be32_round_trip(a);
    law_be32_round_trip(b);
    lemma_xor_halves(x.hi.host(), x.lo.host(), y.hi.host(), y.lo.host());
    let z = x.xor_spec(y);
    assert(z.hi == x.hi.xor_spec(y.hi) && z.lo == x.lo.xor_spec(y.lo));
    assert(z.hi.host() == x.hi.host() ^ y.hi.host());
    assert(z.lo.host() == x.lo.host() ^ y.lo.host());
    assert(x.host() == a);
    assert(y.host() == b);
}

} // verus!
