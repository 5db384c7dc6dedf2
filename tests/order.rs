use network_types::{be16, be32};

#[test]
fn be16_round_trip() {
    for x in [0u16, 1, 0x0800, 0x86dd, 0xffff, 0x1234] {
        assert_eq!(x, be16::new(x).to_host());
        assert_eq!(x, u16::from(be16::from(x)));
    }
}

#[test]
fn be16_bytes_are_wire_order() {
    assert_eq!([0x86, 0xdd], be16::new(0x86dd).to_bytes());
    assert_eq!(0x0800, be16::from_bytes([0x08, 0x00]).to_host());
    let bytes: [u8; 2] = be16::new(0x1234).into();
    assert_eq!([0x12, 0x34], bytes);
    assert_eq!(be16::new(0xabcd), be16::from([0xab, 0xcd]));
}

#[test]
fn be16_xor_matches_host_xor() {
    let (a, b) = (0x1234u16, 0x0ff0u16);
    assert_eq!(a ^ b, (be16::new(a) ^ be16::new(b)).to_host());
    assert_eq!(a ^ b, be16::new(a).xor(be16::new(b)).to_host());
}

#[test]
fn be32_round_trip() {
    for x in [0u32, 1, 0x0403_0201, 0xffff_ffff, 0x0001_0000] {
        assert_eq!(x, be32::new(x).to_host());
        assert_eq!(x, u32::from(be32::from(x)));
    }
}

#[test]
fn be32_bytes_are_wire_order() {
    assert_eq!([4, 3, 2, 1], be32::new(0x0403_0201).to_bytes());
    assert_eq!(0x0102_0304, be32::from_bytes([1, 2, 3, 4]).to_host());
    let bytes: [u8; 4] = be32::new(0xdead_beef).into();
    assert_eq!([0xde, 0xad, 0xbe, 0xef], bytes);
    assert_eq!(be32::new(0x0a0b_0c0d), be32::from([0x0a, 0x0b, 0x0c, 0x0d]));
}

#[test]
fn be32_xor_matches_host_xor() {
    let (a, b) = (0x1234_5678u32, 0xf0f0_0f0fu32);
    assert_eq!(a ^ b, (be32::new(a) ^ be32::new(b)).to_host());
}
