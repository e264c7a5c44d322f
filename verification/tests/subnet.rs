use proxy_pool::addr::IpAddress;
use proxy_pool::error::Error;
use proxy_pool::subnet::{
    get_rand_ipv4, get_rand_ipv4_socket_addr, get_rand_ipv6, get_rand_ipv6_socket_addr,
    ipv4_network_mask, ipv6_network_mask, Ipv4Subnet, Ipv6Subnet,
};

#[test]
fn ipv4_masks_have_their_high_bits_set() {
    assert_eq!(ipv4_network_mask(0), 0);
    assert_eq!(ipv4_network_mask(1), 0x8000_0000);
    assert_eq!(ipv4_network_mask(8), 0xff00_0000);
    assert_eq!(ipv4_network_mask(24), 0xffff_ff00);
    assert_eq!(ipv4_network_mask(31), 0xffff_fffe);
    assert_eq!(ipv4_network_mask(32), 0xffff_ffff);
    assert_eq!(ipv4_network_mask(200), 0xffff_ffff);
}

#[test]
fn ipv6_masks_have_their_high_bits_set() {
    assert_eq!(ipv6_network_mask(0), 0);
    assert_eq!(ipv6_network_mask(1), 1u128 << 127);
    assert_eq!(ipv6_network_mask(64), 0xffff_ffff_ffff_ffff_0000_0000_0000_0000);
    assert_eq!(ipv6_network_mask(127), u128::MAX - 1);
    assert_eq!(ipv6_network_mask(128), u128::MAX);
    assert_eq!(ipv6_network_mask(255), u128::MAX);
}

#[test]
fn canonical_subnets_are_accepted() {
    let subnet = Ipv4Subnet::new(0x0a00_0000, 8).unwrap();
    assert_eq!(subnet.first_address(), 0x0a00_0000);
    assert_eq!(subnet.network_length(), 8);
    assert!(Ipv4Subnet::new(0, 0).is_some());
    assert!(Ipv4Subnet::new(0xc0a8_0101, 32).is_some());
    let subnet = Ipv6Subnet::new(0x2001_0db8 << 96, 32).unwrap();
    assert_eq!(subnet.first_address(), 0x2001_0db8 << 96);
    assert_eq!(subnet.network_length(), 32);
    assert!(Ipv6Subnet::new(0, 0).is_some());
    assert!(Ipv6Subnet::new(1, 128).is_some());
}

#[test]
fn subnets_with_host_bits_or_long_prefixes_are_refused() {
    assert!(Ipv4Subnet::new(0x0a00_0001, 8).is_none());
    assert!(Ipv4Subnet::new(1, 0).is_none());
    assert!(Ipv4Subnet::new(0, 33).is_none());
    assert!(Ipv4Subnet::new(0xc0a8_0101, 31).is_none());
    assert!(Ipv6Subnet::new(1, 127).is_none());
    assert!(Ipv6Subnet::new(0, 129).is_none());
    assert!(Ipv6Subnet::new((0x2001_0db8 << 96) | 1, 32).is_none());
}

#[test]
fn host_bits_fill_what_the_prefix_leaves() {
    let subnet = Ipv4Subnet::new(0x0a00_0000, 8).unwrap();
    assert_eq!(subnet.address_with_host_bits(0xffff_ffff), 0x0aff_ffff);
    assert_eq!(subnet.address_with_host_bits(0), 0x0a00_0000);
    assert_eq!(subnet.address_with_host_bits(0x1234_5678), 0x0a34_5678);
    let subnet = Ipv4Subnet::new(0xc0a8_0100, 24).unwrap();
    assert_eq!(subnet.address_with_host_bits(0xdead_beef), 0xc0a8_01ef);
    let everything = Ipv4Subnet::new(0, 0).unwrap();
    assert_eq!(everything.address_with_host_bits(0xdead_beef), 0xdead_beef);
    let subnet = Ipv6Subnet::new(0x2001_0db8 << 96, 32).unwrap();
    assert_eq!(
        subnet.address_with_host_bits(u128::MAX),
        0x2001_0db8_ffff_ffff_ffff_ffff_ffff_ffff
    );
    assert_eq!(subnet.address_with_host_bits(0x5), (0x2001_0db8 << 96) | 5);
}

#[test]
fn host_subnet_yields_its_network_address() {
    let subnet = Ipv4Subnet::new(0xc0a8_0001, 32).unwrap();
    assert_eq!(subnet.address_with_host_bits(0xffff_ffff), 0xc0a8_0001);
    for _ in 0..32 {
        assert_eq!(get_rand_ipv4(&subnet), IpAddress::V4(0xc0a8_0001));
    }
    let subnet = Ipv6Subnet::new(0x2001_0db8_0000_0000_0000_0000_0000_0001, 128).unwrap();
    assert_eq!(subnet.address_with_host_bits(u128::MAX), subnet.first_address());
    for _ in 0..32 {
        assert_eq!(get_rand_ipv6(&subnet), IpAddress::V6(subnet.first_address()));
    }
}

#[test]
fn drawn_ipv4_addresses_keep_the_network_bits() {
    let subnet = Ipv4Subnet::new(0xac10_0000, 12).unwrap();
    let mut seen = Vec::new();
    for _ in 0..256 {
        match get_rand_ipv4(&subnet) {
            IpAddress::V4(address) => {
                assert_eq!(address & 0xfff0_0000, 0xac10_0000);
                seen.push(address);
            }
            IpAddress::V6(_) => panic!("an IPv4 subnet gave an IPv6 address"),
        }
    }
    assert!(seen.iter().any(|address| *address != seen[0]));
}

#[test]
fn drawn_ipv6_addresses_keep_the_network_bits() {
    let network: u128 = 0x2001_0db8_0000_0000_0000_0000_0000_0000;
    let subnet = Ipv6Subnet::new(network, 48).unwrap();
    let mask: u128 = 0xffff_ffff_ffff_0000_0000_0000_0000_0000;
    let mut seen = Vec::new();
    for _ in 0..256 {
        match get_rand_ipv6(&subnet) {
            IpAddress::V6(address) => {
                assert_eq!(address & mask, network);
                seen.push(address);
            }
            IpAddress::V4(_) => panic!("an IPv6 subnet gave an IPv4 address"),
        }
    }
    assert!(seen.iter().any(|address| *address != seen[0]));
}

#[test]
fn an_empty_pool_gives_no_address() {
    assert!(matches!(get_rand_ipv4_socket_addr(&[]), Err(Error::EmptyPool)));
    assert!(matches!(get_rand_ipv6_socket_addr(&[]), Err(Error::EmptyPool)));
}

#[test]
fn a_pool_gives_an_address_of_one_of_its_subnets() {
    let pool = vec![
        Ipv4Subnet::new(0x0a00_0000, 8).unwrap(),
        Ipv4Subnet::new(0xc0a8_0100, 24).unwrap(),
    ];
    let mut first = 0;
    let mut second = 0;
    let mut ports = Vec::new();
    for _ in 0..256 {
        let address = get_rand_ipv4_socket_addr(&pool).unwrap();
        ports.push(address.port);
        match address.ip {
            IpAddress::V4(ip) => {
                if ip & 0xff00_0000 == 0x0a00_0000 {
                    first += 1;
                } else {
                    assert_eq!(ip & 0xffff_ff00, 0xc0a8_0100);
                    second += 1;
                }
            }
            IpAddress::V6(_) => panic!("an IPv4 pool gave an IPv6 address"),
        }
    }
    assert!(first > 0);
    assert!(second > 0);
    assert!(ports.iter().any(|port| *port != ports[0]));
}

#[test]
fn an_ipv6_pool_gives_an_address_of_its_subnet() {
    let network: u128 = 0xfd00 << 112;
    let pool = vec![Ipv6Subnet::new(network, 8).unwrap()];
    for _ in 0..64 {
        let address = get_rand_ipv6_socket_addr(&pool).unwrap();
        match address.ip {
            IpAddress::V6(ip) => assert_eq!(ip >> 120, 0xfd),
            IpAddress::V4(_) => panic!("an IPv6 pool gave an IPv4 address"),
        }
    }
}
