use proxy_pool::config::parse_subnets;
use proxy_pool::subnet::{Ipv4Subnet, Ipv6Subnet, Subnet};

#[test]
fn a_list_of_ipv4_subnets_is_read_in_order() {
    let pool = parse_subnets::<Ipv4Subnet>("10.0.0.0/8,192.168.1.0/24");
    assert_eq!(pool.len(), 2);
    assert_eq!(pool[0].first_address(), 0x0a00_0000);
    assert_eq!(pool[0].network_length(), 8);
    assert_eq!(pool[1].first_address(), 0xc0a8_0100);
    assert_eq!(pool[1].network_length(), 24);
}

#[test]
fn a_list_of_ipv6_subnets_is_read_in_order() {
    let pool = parse_subnets::<Ipv6Subnet>("2001:db8::/32,fd00::/8");
    assert_eq!(pool.len(), 2);
    assert_eq!(pool[0].first_address(), 0x2001_0db8 << 96);
    assert_eq!(pool[0].network_length(), 32);
    assert_eq!(pool[1].first_address(), 0xfd00 << 112);
    assert_eq!(pool[1].network_length(), 8);
}

#[test]
fn entries_that_are_not_valid_are_dropped() {
    let pool = parse_subnets::<Ipv4Subnet>("bogus,10.0.0.0/8,,10.0.0.1/8,1.2.3.0/33,172.16.0.0/12,");
    assert_eq!(pool.len(), 2);
    assert_eq!(pool[0].first_address(), 0x0a00_0000);
    assert_eq!(pool[1].first_address(), 0xac10_0000);
    assert_eq!(pool[1].network_length(), 12);
}

#[test]
fn an_empty_list_gives_an_empty_pool() {
    assert!(parse_subnets::<Ipv4Subnet>("").is_empty());
    assert!(parse_subnets::<Ipv6Subnet>("").is_empty());
    assert!(parse_subnets::<Ipv4Subnet>(",,,").is_empty());
}

#[test]
fn a_family_reads_only_its_own_notation() {
    assert!(parse_subnets::<Ipv4Subnet>("2001:db8::/32").is_empty());
    assert!(parse_subnets::<Ipv6Subnet>("10.0.0.0/8").is_empty());
    let pool = parse_subnets::<Ipv6Subnet>("10.0.0.0/8,::1/128");
    assert_eq!(pool.len(), 1);
    assert_eq!(pool[0].first_address(), 1);
    assert_eq!(pool[0].network_length(), 128);
}

#[test]
fn an_address_without_a_length_is_a_subnet_of_one_host() {
    let subnet = Ipv4Subnet::parse("192.168.1.7").unwrap();
    assert_eq!(subnet.first_address(), 0xc0a8_0107);
    assert_eq!(subnet.network_length(), 32);
    let subnet = Ipv6Subnet::parse("::1").unwrap();
    assert_eq!(subnet.first_address(), 1);
    assert_eq!(subnet.network_length(), 128);
    assert!(Ipv4Subnet::parse("192.168.1.7/").is_none());
    assert!(Ipv4Subnet::parse(" 10.0.0.0/8").is_none());
}

#[test]
fn text_beyond_ascii_is_cut_at_its_commas() {
    let pool = parse_subnets::<Ipv4Subnet>("ünïcödé,10.0.0.0/8,日本語");
    assert_eq!(pool.len(), 1);
    assert_eq!(pool[0].first_address(), 0x0a00_0000);
}
