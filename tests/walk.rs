use network_types::vxlan::{entropy, Flags};
use network_types::{
    be16, eth, ipv4, ipv6, meta, udp, vxlan, AutoNextHeader, HeaderPtr, NextHeader, Ptr, Window,
};

fn eth_header(ether_type: u16) -> eth::Header {
    eth::Header {
        dst_addr: [0; 6],
        src_addr: [0; 6],
        ether_type: eth::Type::new(ether_type),
    }
}

#[test]
fn construct_at_window_start_and_end() {
    let w = Window { start: 100, end: 114 };
    assert!(Ptr::<eth::Header>::construct(100, w).is_ok());
    assert!(Ptr::<eth::Header>::construct(114, w).is_err());
    assert!(Ptr::<vxlan::Header>::construct(114, w).is_err());
    assert!(Ptr::<eth::Header>::construct(99, w).is_err());
    let short = Window { start: 100, end: 113 };
    assert!(Ptr::<eth::Header>::construct(100, short).is_err());
    assert!(Ptr::<vxlan::Header>::construct(100, short).is_ok());
}

#[test]
fn from_frame_checks_the_header_end() {
    assert!(eth::Header::from_frame(Window { start: 0, end: 13 }).is_err());
    let p = eth::Header::from_frame(Window { start: 5, end: 19 }).unwrap();
    assert_eq!(5, p.address());
}

#[test]
fn ethernet_to_ipv4_needs_room_for_the_ipv4_header() {
    let eth_h = eth_header(eth::Type::IPV4);
    let at = Ptr::<eth::Header>::new(0);
    let short = Window { start: 0, end: 14 + 19 };
    assert!(eth_h.next(&at, short).is_err());
    let room = Window { start: 0, end: 14 + 20 };
    match eth_h.next(&at, room) {
        Ok(HeaderPtr::Ipv4(p)) => assert_eq!(14, p.address()),
        _ => panic!("expected an IPv4 cursor"),
    }
}

#[test]
fn ethernet_dispatch_table() {
    let at = Ptr::<eth::Header>::new(10);
    let w = Window { start: 10, end: 200 };
    assert!(matches!(eth_header(0x0806).next(&at, w), Ok(HeaderPtr::Arp(_))));
    assert!(matches!(eth_header(0x86DD).next(&at, w), Ok(HeaderPtr::Ipv6(_))));
    assert!(matches!(eth_header(0x1234).next(&at, w), Ok(HeaderPtr::Unhandled())));
    // An unhandled EtherType is not an error, even with no room left.
    let tight = Window { start: 10, end: 24 };
    assert!(matches!(eth_header(0x88cc).next(&at, tight), Ok(HeaderPtr::Unhandled())));
}

#[test]
fn ip_dispatch_table() {
    let mut v4 = ipv4::Header::default();
    let at4 = Ptr::<ipv4::Header>::new(14);
    let w = Window { start: 0, end: 14 + 20 + 8 };
    v4.proto = network_types::ip::Proto::new(network_types::ip::Proto::UDP);
    match v4.next(&at4, w) {
        Ok(HeaderPtr::Udp(p)) => assert_eq!(34, p.address()),
        _ => panic!("expected a UDP cursor"),
    }
    v4.proto = network_types::ip::Proto::new(network_types::ip::Proto::TCP);
    assert!(v4.next(&at4, w).is_err());
    v4.proto = network_types::ip::Proto::new(network_types::ip::Proto::ICMP);
    assert!(matches!(v4.next(&at4, w), Ok(HeaderPtr::Unhandled())));

    let mut v6 = ipv6::Header::default();
    let at6 = Ptr::<ipv6::Header>::new(14);
    v6.proto = network_types::ip::Proto::new(6);
    match v6.next(&at6, Window { start: 0, end: 74 }) {
        Ok(HeaderPtr::Tcp(p)) => assert_eq!(54, p.address()),
        _ => panic!("expected a TCP cursor"),
    }
    assert!(v6.next(&at6, Window { start: 0, end: 73 }).is_err());
}

#[test]
fn vxlan_is_followed_by_ethernet() {
    let h = vxlan::Header::default();
    let at = Ptr::<vxlan::Header>::new(42);
    match h.next(&at, Window { start: 0, end: 64 }) {
        Ok(HeaderPtr::Eth(p)) => assert_eq!(50, p.address()),
        _ => panic!("expected an Ethernet cursor"),
    }
    assert!(h.next(&at, Window { start: 0, end: 63 }).is_err());
    assert!(h.ethernet(&at, Window { start: 0, end: 63 }).is_err());
}

#[test]
fn next_t_with_a_caller_chosen_type() {
    let at = Ptr::<udp::Header>::new(34);
    let p = at.next_t::<vxlan::Header>(Window { start: 0, end: 50 }).unwrap();
    assert_eq!(42, p.address());
    assert!(at.next_t::<vxlan::Header>(Window { start: 0, end: 49 }).is_err());
}

#[test]
fn offset_is_signed() {
    let frame = Window { start: 64, end: 128 };
    assert_eq!(14, Ptr::<eth::Header>::new(78).offset(frame));
    assert_eq!(-8, Ptr::<vxlan::Header>::new(56).offset(frame));
    assert_eq!(0, Ptr::<eth::Header>::new(64).offset(frame));
}

#[test]
fn metadata_cursor() {
    assert!(meta::from_range::<vxlan::Header>(Window { start: 0, end: 8 }).is_some());
    assert!(meta::from_range::<vxlan::Header>(Window { start: 0, end: 7 }).is_none());
    let p = meta::from_range::<udp::Header>(Window { start: 3, end: 16 }).unwrap();
    assert_eq!(3, p.address());
}

#[test]
fn write_then_read_back() {
    let mut packet = vec![0xaau8; 40];
    let at = Ptr::<eth::Header>::new(2);
    let h = eth::Header {
        dst_addr: [1, 2, 3, 4, 5, 6],
        src_addr: [7, 8, 9, 10, 11, 12],
        ether_type: eth::Type::new(0x86dd),
    };
    at.write(&mut packet, &h);
    assert_eq!([0xaa, 0xaa, 1, 2, 3], packet[0..5]);
    assert_eq!([12, 0x86, 0xdd, 0xaa], packet[13..17]);
    let back = at.read(&packet);
    assert_eq!(h.dst_addr, back.dst_addr);
    assert_eq!(h.src_addr, back.src_addr);
    assert_eq!(h.ether_type, back.ether_type);
}

#[test]
fn read_ipv4_from_bytes() {
    let mut packet = vec![0u8; 20];
    packet[0] = 0x45;
    packet[2] = 0x00;
    packet[3] = 0x54;
    packet[9] = 17;
    packet[12..16].copy_from_slice(&[10, 0, 0, 1]);
    let h = ipv4::Header::read_at(&packet, 0);
    assert_eq!(4, h.version());
    assert_eq!(5, h.ihl());
    assert_eq!(0x54, u16::from(h.tot_len));
    assert_eq!(17, h.proto.val);
    assert_eq!([10, 0, 0, 1], h.source().octets());
    let mut out = vec![0u8; 20];
    h.write_at(&mut out, 0);
    assert_eq!(packet, out);
}

#[test]
fn entropy_of_zero_macs_and_ipv4() {
    let inner = eth_header(0x0800);
    assert_eq!(0x0800, entropy(&inner).to_host());
}

#[test]
fn entropy_changes_with_any_single_byte() {
    let inner = eth_header(0x0800);
    let base = entropy(&inner).to_host();
    for i in 0..14 {
        let mut bytes = vec![0u8; 14];
        bytes[12] = 0x08;
        bytes[i] ^= 0x01;
        let flipped = eth::Header::read_at(&bytes, 0);
        assert_ne!(base, entropy(&flipped).to_host());
    }
}

#[test]
fn entropy_folds_seven_words() {
    let inner = eth::Header {
        dst_addr: [0x12, 0x34, 0, 0, 0, 0],
        src_addr: [0, 0, 0x0f, 0xf0, 0, 0],
        ether_type: eth::Type::new(0x86dd),
    };
    assert_eq!(0x1234 ^ 0x0ff0 ^ 0x86dd, entropy(&inner).to_host());
}

#[test]
fn source_port_of_encapsulated_frame() {
    let mut packet = vec![0u8; 22];
    let at = Ptr::<vxlan::Header>::new(0);
    let mut v = vxlan::Header::default();
    v.flags = Flags::new(Flags::HAS_VNI);
    at.write(&mut packet, &v);
    packet[8] = 0xab;
    packet[9] = 0xcd;
    packet[20] = 0x08;
    let h = at.read(&packet);
    let port = h.source_port(&at, &packet, Window { start: 0, end: 22 });
    assert_eq!(0xabcd ^ 0x0800, port.to_host());
    let none = h.source_port(&at, &packet, Window { start: 0, end: 21 });
    assert_eq!(be16::new(0), none);
}

#[test]
fn from_frame_derives_lengths() {
    let at6 = Ptr::<ipv6::Header>::new(14);
    let h6 = ipv6::Header::from_frame(&at6, Window { start: 0, end: 100 });
    assert_eq!(46, u16::from(h6.payload_len));
    assert_eq!(6, h6.version());
    assert_eq!(64, h6.hop_limit);
    let at_udp = Ptr::<udp::Header>::new(34);
    let hu = udp::Header::from_frame(&at_udp, Window { start: 0, end: 100 });
    assert_eq!(66, u16::from(hu.len));
    assert_eq!(0, u16::from(hu.source));
}

#[test]
fn lengths_wrap_at_sixteen_bits() {
    let at = Ptr::<udp::Header>::new(0);
    let hu = udp::Header::from_frame(&at, Window { start: 0, end: 0x1_0005 });
    assert_eq!(5, u16::from(hu.len));
}

fn pattern(n: usize) -> Vec<u8> {
    (0..n).map(|i| (i as u8).wrapping_mul(37).wrapping_add(11)).collect()
}

fn round_trip<T: NextHeader>() {
    let n = T::len();
    let bytes = pattern(n + 3);
    let h = T::read_at(&bytes, 3);
    let mut out = vec![0u8; n + 3];
    h.write_at(&mut out, 3);
    assert_eq!(bytes[3..], out[3..]);
    assert_eq!([0, 0, 0], out[0..3]);
}

#[test]
fn every_header_reads_and_writes_its_wire_bytes() {
    round_trip::<eth::Header>();
    round_trip::<network_types::arp::Header>();
    round_trip::<ipv4::Header>();
    round_trip::<ipv6::Header>();
    round_trip::<network_types::tcp::Header>();
    round_trip::<udp::Header>();
    round_trip::<vxlan::Header>();
}

#[test]
fn tcp_fields_from_bytes() {
    let mut bytes = vec![0u8; 20];
    bytes[0..4].copy_from_slice(&[0x1f, 0x90, 0x00, 0x50]);
    bytes[4..8].copy_from_slice(&[0, 0, 1, 0]);
    bytes[13] = 0x12;
    let h = network_types::tcp::Header::read_at(&bytes, 0);
    assert_eq!(8080, u16::from(h.source));
    assert_eq!(80, u16::from(h.dest));
    assert_eq!(256, u32::from(h.seq));
    assert_eq!([0, 0x12], h._bitfields);
}
