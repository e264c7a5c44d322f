use proxy_pool::addr::{port_from_octets, IpAddress, SocketAddress, IPV4_LOOPBACK, IPV6_LOOPBACK};

#[test]
fn ipv4_octets_are_read_in_network_order() {
    assert_eq!(IpAddress::from_v4_octets(&[127, 0, 0, 1]), Some(IpAddress::V4(0x7f00_0001)));
    assert_eq!(IpAddress::from_v4_octets(&[192, 168, 1, 20]), Some(IpAddress::V4(0xc0a8_0114)));
    assert_eq!(IpAddress::from_v4_octets(&[255, 255, 255, 255]), Some(IpAddress::V4(u32::MAX)));
    assert_eq!(IpAddress::from_v4_octets(&[0, 0, 0, 0]), Some(IpAddress::V4(0)));
}

#[test]
fn ipv4_octets_of_another_length_are_refused() {
    assert_eq!(IpAddress::from_v4_octets(&[]), None);
    assert_eq!(IpAddress::from_v4_octets(&[1, 2, 3]), None);
    assert_eq!(IpAddress::from_v4_octets(&[1, 2, 3, 4, 5]), None);
}

#[test]
fn ipv6_octets_are_read_in_network_order() {
    let mut octets = [0u8; 16];
    octets[15] = 1;
    assert_eq!(IpAddress::from_v6_octets(&octets), Some(IpAddress::V6(1)));
    let documentation = [0x20, 0x01, 0x0d, 0xb8, 0, 0, 0, 0, 0, 0, 0, 0, 0, 0, 0x12, 0x34];
    assert_eq!(
        IpAddress::from_v6_octets(&documentation),
        Some(IpAddress::V6(0x2001_0db8_0000_0000_0000_0000_0000_1234))
    );
    assert_eq!(IpAddress::from_v6_octets(&[0xff; 16]), Some(IpAddress::V6(u128::MAX)));
}

#[test]
fn ipv6_octets_of_another_length_are_refused() {
    assert_eq!(IpAddress::from_v6_octets(&[0; 15]), None);
    assert_eq!(IpAddress::from_v6_octets(&[0; 17]), None);
    assert_eq!(IpAddress::from_v6_octets(&[127, 0, 0, 1]), None);
}

#[test]
fn port_is_read_in_network_order() {
    assert_eq!(port_from_octets(&[0x1f, 0x90]), Some(8080));
    assert_eq!(port_from_octets(&[0, 80]), Some(80));
    assert_eq!(port_from_octets(&[0xff, 0xff]), Some(65535));
    assert_eq!(port_from_octets(&[0, 0]), Some(0));
    assert_eq!(port_from_octets(&[1]), None);
    assert_eq!(port_from_octets(&[1, 2, 3]), None);
}

#[test]
fn families_are_told_apart() {
    assert!(IpAddress::V4(IPV4_LOOPBACK).is_v4());
    assert!(!IpAddress::V6(IPV6_LOOPBACK).is_v4());
    assert_eq!(IPV4_LOOPBACK, 0x7f00_0001);
    assert_eq!(IPV6_LOOPBACK, 1);
}

#[test]
fn socket_addresses_compare_by_their_parts() {
    let a = SocketAddress { ip: IpAddress::V4(1), port: 2 };
    let b = SocketAddress { ip: IpAddress::V4(1), port: 2 };
    let c = SocketAddress { ip: IpAddress::V6(1), port: 2 };
    assert_eq!(a, b);
    assert_ne!(a, c);
}
