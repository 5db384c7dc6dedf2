use network_types::ip::{Ipv4Addr, Ipv6Addr, Proto};
use network_types::vxlan::{Flags, Header};
use network_types::{arp, be32, ipv4, ipv6};

#[test]
fn version() {
    let ipv6 = ipv6::Header::default();
    assert_eq!(6, ipv6.version())
}

#[test]
fn priority() {
    let mut ipv6 = ipv6::Header::default();
    assert_eq!(0, ipv6.priority());
    ipv6.set_priority(29);
    assert_eq!([0x61, 0xd0], ipv6._bitfields[0..2]);
    assert_eq!(0x1d, ipv6.priority());

    ipv6.set_priority(0xe2);
    assert_eq!([0x6e, 0x20], ipv6._bitfields[0..2]);
    assert_eq!(0xe2, ipv6.priority());
}

#[test]
fn flow_label() {
    let mut ipv6 = ipv6::Header::default();
    assert_eq!(0, ipv6.flow());
    ipv6.set_flow(0x71d11);
    assert_eq!([7, 0x1d, 0x11], ipv6._bitfields[1..4]);
    assert_eq!(0x71d11, ipv6.flow());

    ipv6.set_priority(29);
    assert_eq!(0x1d, ipv6.priority());
    assert_eq!(0x71d11, ipv6.flow());
    assert_eq!([0xd7, 0x1d, 0x11], ipv6._bitfields[1..4]);

    ipv6.set_flow(0x8e2ee);
    assert_eq!(0x8e2ee, ipv6.flow());
    assert_eq!(0x1d, ipv6.priority());
}

#[test]
fn flow_label_keeps_only_twenty_bits() {
    let mut ipv6 = ipv6::Header::default();
    ipv6.set_flow(0xfff7_1d11);
    assert_eq!(0x71d11, ipv6.flow());
    assert_eq!(6, ipv6.version());
    assert_eq!(0, ipv6.priority());
}

#[test]
fn ipv6_default_hop_limit() {
    let ipv6 = ipv6::Header::default();
    assert_eq!(64, ipv6.hop_limit);
    assert_eq!(0, u16::from(ipv6.payload_len));
}

#[test]
fn vni() {
    let mut h = Header::default();
    assert_eq!(None, h.vni());
    h.vni = [1, 2, 3];
    assert_eq!(None, h.vni());
    h.flags = Flags::new(Flags::HAS_VNI);
    assert_eq!(Some(be32::new(0x10203)), h.vni());
}

#[test]
fn set_vni() {
    let mut h = Header::default();
    assert_eq!(None, h.vni());
    h.set_vni(be32::new(0x30201));
    assert_eq!(Some(be32::new(0x30201)), h.vni());
    // Discard the highest order byte
    h.set_vni(be32::new(0x4030201));
    assert_eq!(Some(be32::new(0x30201)), h.vni());
}

#[test]
fn clear_vni() {
    let mut h = Header {
        flags: Flags::new(Flags::HAS_VNI),
        ..Header::default()
    };
    assert_eq!(Some(be32::new(0)), h.vni());
    h.clear_vni();
    assert_eq!(None, h.vni());
}

#[test]
fn clear_vni_leaves_the_vni_bytes() {
    let mut h = Header::default();
    assert_eq!(None, h.vni());
    h.set_vni(be32::new(0x4030201));
    assert_eq!(Some(be32::new(0x030201)), h.vni());
    h.clear_vni();
    assert_eq!(None, h.vni());
    assert_eq!([3, 2, 1], h.vni);
}

#[test]
fn vni_absent_while_flag_bit_is_clear() {
    let h = Header {
        flags: Flags::new(0x80),
        vni: [9, 9, 9],
        ..Header::default()
    };
    assert_eq!(None, h.vni());
}

#[test]
fn ipv4_version_and_ihl_share_a_byte() {
    let mut h = ipv4::Header::default();
    h._bitfields = 0;
    h.set_ihl(5);
    h.set_version(4);
    assert_eq!(0x45, h._bitfields);
    assert_eq!(5, h.ihl());
    assert_eq!(4, h.version());
    h.set_ihl(0x1f);
    assert_eq!(0x4f, h._bitfields);
    assert_eq!(4, h.version());
}

#[test]
fn ipv4_default_is_version_four_ihl_five() {
    let h = ipv4::Header::default();
    assert_eq!(0x45, h._bitfields);
    assert_eq!(Proto::new(0), h.proto);
}

#[test]
fn ipv4_addresses() {
    let mut h = ipv4::Header::default();
    h.set_source(Ipv4Addr::new(10, 0, 0, 1));
    h.set_destination(Ipv4Addr::new(192, 168, 1, 2));
    assert_eq!([10, 0, 0, 1], h.source);
    assert_eq!([10, 0, 0, 1], h.source().octets());
    assert_eq!([192, 168, 1, 2], h.destination().octets());
}

#[test]
fn ipv6_addresses() {
    let mut h = ipv6::Header::default();
    let mut a = [0u8; 16];
    a[0] = 0xfe;
    a[1] = 0x80;
    a[15] = 1;
    h.set_source(Ipv6Addr::from_octets(a));
    h.set_destination(Ipv6Addr::from_octets([2; 16]));
    assert_eq!(a, h.source().octets());
    assert_eq!([2; 16], h.destination);
}

#[test]
fn arp_addresses() {
    let mut h = arp::Header {
        h_type: arp::HardwareType::new(arp::HardwareType::ETHERNET),
        p_type: arp::ProtocolType::new(0x0800),
        h_len: 6,
        p_len: 4,
        oper: arp::Operation::new(arp::Operation::REQUEST),
        sha: [1; 6],
        spa: [0; 4],
        tha: [2; 6],
        tpa: [0; 4],
    };
    h.set_spa(Ipv4Addr::new(10, 1, 2, 3));
    h.set_tpa(Ipv4Addr::new(10, 4, 5, 6));
    assert_eq!([10, 1, 2, 3], h.spa().octets());
    assert_eq!([10, 4, 5, 6], h.tpa().octets());
    assert_eq!([1; 6], h.sha);
}
