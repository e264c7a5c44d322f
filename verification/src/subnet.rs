//! Subnets, pools of subnets, and the egress addresses drawn from them.
//!
//! A subnet is a network address and a prefix length. An egress address of a
//! subnet keeps the subnet's network bits and takes its host bits from a
//! random bit pattern.

use vstd::prelude::*;
use rand::seq::SliceRandom;
use crate::addr::{IpAddress, SocketAddress};
use crate::error::Error;

verus! {

/// Number of bits in an IPv4 address.
pub const IPV4_BITS: u8 = 32;

/// Number of bits in an IPv6 address.
pub const IPV6_BITS: u8 = 128;

/// The IPv4 network mask of a prefix length: the high `len` bits set, all
/// bits for a length of 32 or more.
pub open spec fn ipv4_mask(len: u8) -> u32 {
    if len == 0 {
        0u32
    } else if len >= 32 {
        0xffff_ffffu32
    } else {
        !(0xffff_ffffu32 >> len)
    }
}

/// The IPv6 network mask of a prefix length: the high `len` bits set, all
/// bits for a length of 128 or more.
pub open spec fn ipv6_mask(len: u8) -> u128 {
    if len == 0 {
        0u128
    } else if len >= 128 {
        0xffff_ffff_ffff_ffff_ffff_ffff_ffff_ffffu128
    } else {
        !(0xffff_ffff_ffff_ffff_ffff_ffff_ffff_ffffu128 >> len)
    }
}

/// Computes the IPv4 network mask of a prefix length.
pub fn ipv4_network_mask(len: u8) -> (mask: u32)
    ensures
        mask == ipv4_mask(len),
{
    if len == 0 {
        0
    } else if len >= 32 {
        0xffff_ffff
    } else {
        !(0xffff_ffffu32 >> len)
    }
}

/// Computes the IPv6 network mask of a prefix length.
pub fn ipv6_network_mask(len: u8) -> (mask: u128)
    ensures
        mask == ipv6_mask(len),
{
    if len == 0 {
        0
    } else if len >= 128 {
        0xffff_ffff_ffff_ffff_ffff_ffff_ffff_ffff
    } else {
        !(0xffff_ffff_ffff_ffff_ffff_ffff_ffff_ffffu128 >> len)
    }
}

/// Whether `(network, prefix_length)` is an IPv4 subnet in canonical form:
/// the length is at most 32 and every bit of the network address beyond the
/// prefix is zero.
pub open spec fn ipv4_canonical(network: u32, prefix_length: u8) -> bool {
    prefix_length <= 32 && network & !ipv4_mask(prefix_length) == 0
}

/// Whether `(network, prefix_length)` is an IPv6 subnet in canonical form:
/// the length is at most 128 and every bit of the network address beyond the
/// prefix is zero.
pub open spec fn ipv6_canonical(network: u128, prefix_length: u8) -> bool {
    prefix_length <= 128 && network & !ipv6_mask(prefix_length) == 0
}

/// The address of a subnet whose host part is taken from `bits`: the
/// network's bits under the mask, the bits of `bits` outside it.
pub open spec fn ipv4_compose(network: u32, prefix_length: u8, bits: u32) -> u32 {
    network | (bits & !ipv4_mask(prefix_length))
}

/// The address of a subnet whose host part is taken from `bits`: the
/// network's bits under the mask, the bits of `bits` outside it.
pub open spec fn ipv6_compose(network: u128, prefix_length: u8, bits: u128) -> u128 {
    network | (bits & !ipv6_mask(prefix_length))
}

/// An IPv4 network prefix in canonical form.
#[derive(Clone, Copy, Debug)]
pub struct Ipv4Subnet {
    network: u32,
    prefix_length: u8,
}

impl Ipv4Subnet {
    /// The network address.
    pub closed spec fn network(&self) -> u32 {
        self.network
    }

    /// The number of leading bits that every address of the subnet shares.
    pub closed spec fn prefix_length(&self) -> u8 {
        self.prefix_length
    }

    /// The subnet is in canonical form. Every value that executable code
    /// holds satisfies this.
    #[verifier::type_invariant]
    pub open spec fn wf(&self) -> bool {
        ipv4_canonical(self.network(), self.prefix_length())
    }

    /// Whether `address` lies in the subnet: its bits under the mask are the
    /// network address.
    pub open spec fn contains(&self, address: u32) -> bool {
        address & ipv4_mask(self.prefix_length()) == self.network()
    }

    /// The subnet of a network address and a prefix length, if the two are
    /// in canonical form.
    pub closed spec fn checked(network: u32, prefix_length: u8) -> Option<Ipv4Subnet> {
        if ipv4_canonical(network, prefix_length) {
            Some(Ipv4Subnet { network, prefix_length })
        } else {
            None
        }
    }

    /// `checked` yields a subnet exactly for a canonical pair, and the subnet
    /// then has that network address and that prefix length.
    pub proof fn lemma_checked(network: u32, prefix_length: u8)
        ensures
            Self::checked(network, prefix_length) is Some <==> ipv4_canonical(
                network,
                prefix_length,
            ),
            Self::checked(network, prefix_length) matches Some(s) ==> s.network() == network
                && s.prefix_length() == prefix_length && s.wf(),
    {
    }

    /// The subnet of a network address and a prefix length, if the two are
    /// in canonical form.
    pub fn new(network: u32, prefix_length: u8) -> (r: Option<Ipv4Subnet>)
        ensures
            r == Self::checked(network, prefix_length),
            r is Some <==> ipv4_canonical(network, prefix_length),
            r matches Some(s) ==> s.network() == network && s.prefix_length() == prefix_length
                && s.wf(),
    {
        if prefix_length > IPV4_BITS {
            return None;
        }
        let mask = ipv4_network_mask(prefix_length);
        if network & !mask != 0 {
            return None;
        }
        Some(Ipv4Subnet { network, prefix_length })
    }

    /// The network address.
    pub fn first_address(&self) -> (r: u32)
        ensures
            r == self.network(),
    {
        self.network
    }

    /// The prefix length.
    pub fn network_length(&self) -> (r: u8)
        ensures
            r == self.prefix_length(),
            r <= 32,
    {
        proof {
            use_type_invariant(self);
        }
        self.prefix_length
    }

    /// The address of the subnet whose host bits are those of `bits`. A
    /// subnet of one host yields its network address.
    pub fn address_with_host_bits(&self, bits: u32) -> (address: u32)
        ensures
            address == ipv4_compose(self.network(), self.prefix_length(), bits),
            self.contains(address),
            self.prefix_length() == 32 ==> address == self.network(),
    {
        proof {
            use_type_invariant(self);
            lemma_ipv4_compose_contained(self.network, self.prefix_length, bits);
        }
        if self.prefix_length == IPV4_BITS {
            self.network
        } else {
            let mask = ipv4_network_mask(self.prefix_length);
            self.network | (bits & !mask)
        }
    }
}

/// An address composed from a canonical subnet lies in that subnet, and is
/// the network address itself where the prefix covers all 32 bits.
pub proof fn lemma_ipv4_compose_contained(network: u32, prefix_length: u8, bits: u32)
    requires
        ipv4_canonical(network, prefix_length),
    ensures
        ipv4_compose(network, prefix_length, bits) & ipv4_mask(prefix_length) == network,
        prefix_length == 32 ==> ipv4_compose(network, prefix_length, bits) == network,
{
    let mask = ipv4_mask(prefix_length);
    assert((network | (bits & !mask)) & mask == network) by (bit_vector)
        requires
            network & !mask == 0,
    ;
    if prefix_length == 32 {
        assert(network | (bits & !0xffff_ffffu32) == network) by (bit_vector);
    }
}

/// An IPv6 network prefix in canonical form.
#[derive(Clone, Copy, Debug)]
pub struct Ipv6Subnet {
    network: u128,
    prefix_length: u8,
}

impl Ipv6Subnet {
    /// The network address.
    pub closed spec fn network(&self) -> u128 {
        self.network
    }

    /// The number of leading bits that every address of the subnet shares.
    pub closed spec fn prefix_length(&self) -> u8 {
        self.prefix_length
    }

    /// The subnet is in canonical form. Every value that executable code
    /// holds satisfies this.
    #[verifier::type_invariant]
    pub open spec fn wf(&self) -> bool {
        ipv6_canonical(self.network(), self.prefix_length())
    }

    /// Whether `address` lies in the subnet: its bits under the mask are the
    /// network address.
    pub open spec fn contains(&self, address: u128) -> bool {
        address & ipv6_mask(self.prefix_length()) == self.network()
    }

    /// The subnet of a network address and a prefix length, if the two are
    /// in canonical form.
    pub closed spec fn checked(network: u128, prefix_length: u8) -> Option<Ipv6Subnet> {
        if ipv6_canonical(network, prefix_length) {
            Some(Ipv6Subnet { network, prefix_length })
        } else {
            None
        }
    }

    /// `checked` yields a subnet exactly for a canonical pair, and the subnet
    /// then has that network address and that prefix length.
    pub proof fn lemma_checked(network: u128, prefix_length: u8)
        ensures
            Self::checked(network, prefix_length) is Some <==> ipv6_canonical(
                network,
                prefix_length,
            ),
            Self::checked(network, prefix_length) matches Some(s) ==> s.network() == network
                && s.prefix_length() == prefix_length && s.wf(),
    {
    }

    /// The subnet of a network address and a prefix length, if the two are
    /// in canonical form.
    pub fn new(network: u128, prefix_length: u8) -> (r: Option<Ipv6Subnet>)
        ensures
            r == Self::checked(network, prefix_length),
            r is Some <==> ipv6_canonical(network, prefix_length),
            r matches Some(s) ==> s.network() == network && s.prefix_length() == prefix_length
                && s.wf(),
    {
        if prefix_length > IPV6_BITS {
            return None;
        }
        let mask = ipv6_network_mask(prefix_length);
        if network & !mask != 0 {
            return None;
        }
        Some(Ipv6Subnet { network, prefix_length })
    }

    /// The network address.
    pub fn first_address(&self) -> (r: u128)
        ensures
            r == self.network(),
    {
        self.network
    }

    /// The prefix length.
    pub fn network_length(&self) -> (r: u8)
        ensures
            r == self.prefix_length(),
            r <= 128,
    {
        proof {
            use_type_invariant(self);
        }
        self.prefix_length
    }

    /// The address of the subnet whose host bits are those of `bits`. A
    /// subnet of one host yields its network address.
    pub fn address_with_host_bits(&self, bits: u128) -> (address: u128)
        ensures
            address == ipv6_compose(self.network(), self.prefix_length(), bits),
            self.contains(address),
            self.prefix_length() == 128 ==> address == self.network(),
    {
        proof {
            use_type_invariant(self);
            lemma_ipv6_compose_contained(self.network, self.prefix_length, bits);
        }
        if self.prefix_length == IPV6_BITS {
            self.network
        } else {
            let mask = ipv6_network_mask(self.prefix_length);
            self.network | (bits & !mask)
        }
    }
}

/// An address composed from a canonical subnet lies in that subnet, and is
/// the network address itself where the prefix covers all 128 bits.
pub proof fn lemma_ipv6_compose_contained(network: u128, prefix_length: u8, bits: u128)
    requires
        ipv6_canonical(network, prefix_length),
    ensures
        ipv6_compose(network, prefix_length, bits) & ipv6_mask(prefix_length) == network,
        prefix_length == 128 ==> ipv6_compose(network, prefix_length, bits) == network,
{
    let mask = ipv6_mask(prefix_length);
    assert((network | (bits & !mask)) & mask == network) by (bit_vector)
        requires
            network & !mask == 0,
    ;
    if prefix_length == 128 {
        assert(network | (bits & !0xffff_ffff_ffff_ffff_ffff_ffff_ffff_ffffu128) == network)
            by (bit_vector);
    }
}

/// Every address of a canonical IPv4 subnet is composed from some bit
/// pattern, namely from the address itself: the addresses that can be drawn
/// from a subnet are all of its addresses.
pub proof fn lemma_ipv4_contained_is_composed(network: u32, prefix_length: u8, address: u32)
    requires
        ipv4_canonical(network, prefix_length),
        address & ipv4_mask(prefix_length) == network,
    ensures
        ipv4_compose(network, prefix_length, address) == address,
{
    let mask = ipv4_mask(prefix_length);
    assert(network | (address & !mask) == address) by (bit_vector)
        requires
            address & mask == network,
    ;
}

/// The network address of a canonical IPv4 subnet lies in the subnet.
pub proof fn lemma_ipv4_network_contained(network: u32, prefix_length: u8)
    requires
        ipv4_canonical(network, prefix_length),
    ensures
        network & ipv4_mask(prefix_length) == network,
{
    let mask = ipv4_mask(prefix_length);
    assert(network & mask == network) by (bit_vector)
        requires
            network & !mask == 0,
    ;
}

/// Every address of a canonical IPv6 subnet is composed from some bit
/// pattern, namely from the address itself: the addresses that can be drawn
/// from a subnet are all of its addresses.
pub proof fn lemma_ipv6_contained_is_composed(network: u128, prefix_length: u8, address: u128)
    requires
        ipv6_canonical(network, prefix_length),
        address & ipv6_mask(prefix_length) == network,
    ensures
        ipv6_compose(network, prefix_length, address) == address,
{
    let mask = ipv6_mask(prefix_length);
    assert(network | (address & !mask) == address) by (bit_vector)
        requires
            address & mask == network,
    ;
}

/// The network address of a canonical IPv6 subnet lies in the subnet.
pub proof fn lemma_ipv6_network_contained(network: u128, prefix_length: u8)
    requires
        ipv6_canonical(network, prefix_length),
    ensures
        network & ipv6_mask(prefix_length) == network,
{
    let mask = ipv6_mask(prefix_length);
    assert(network & mask == network) by (bit_vector)
        requires
            network & !mask == 0,
    ;
}

/// What `cidr`'s parser makes of a text as an IPv4 network: the network
/// address as a number and the prefix length, or nothing where the parser
/// refuses the text.
pub uninterp spec fn cidr_ipv4(text: Seq<char>) -> Option<(u32, u8)>;

/// What `cidr`'s parser makes of a text as an IPv6 network: the network
/// address as a number and the prefix length, or nothing where the parser
/// refuses the text.
pub uninterp spec fn cidr_ipv6(text: Seq<char>) -> Option<(u128, u8)>;

/// Parses a text with `<cidr::Ipv4Cidr as FromStr>::from_str` and hands out
/// the network's first address and its length. The result depends on the
/// text alone; the contract gives it a name and claims nothing else.
#[verifier::external_body]
fn parse_ipv4_cidr(text: &str) -> (r: Option<(u32, u8)>)
    ensures
        r == cidr_ipv4(text@),
{
    match text.parse::<cidr::Ipv4Cidr>() {
        Ok(network) => Some((u32::from(network.first_address()), network.network_length())),
        Err(_) => None,
    }
}

/// Parses a text with `<cidr::Ipv6Cidr as FromStr>::from_str` and hands out
/// the network's first address and its length. The result depends on the
/// text alone; the contract gives it a name and claims nothing else.
#[verifier::external_body]
fn parse_ipv6_cidr(text: &str) -> (r: Option<(u128, u8)>)
    ensures
        r == cidr_ipv6(text@),
{
    match text.parse::<cidr::Ipv6Cidr>() {
        Ok(network) => Some((u128::from(network.first_address()), network.network_length())),
        Err(_) => None,
    }
}

/// A kind of subnet that can be read from its CIDR notation.
pub trait Subnet: Sized {
    /// The subnet that a text denotes, if it denotes one.
    spec fn denoted(text: Seq<char>) -> Option<Self>;

    /// Reads a subnet from its CIDR notation.
    fn parse(text: &str) -> (r: Option<Self>)
        ensures
            r == Self::denoted(text@),
    ;
}

impl Subnet for Ipv4Subnet {
    /// The subnet whose parts the parser finds in the text, where they are
    /// in canonical form.
    open spec fn denoted(text: Seq<char>) -> Option<Self> {
        match cidr_ipv4(text) {
            Some((network, prefix_length)) => Ipv4Subnet::checked(network, prefix_length),
            None => None,
        }
    }

    fn parse(text: &str) -> (r: Option<Self>) {
        match parse_ipv4_cidr(text) {
            Some((network, prefix_length)) => Ipv4Subnet::new(network, prefix_length),
            None => None,
        }
    }
}

impl Subnet for Ipv6Subnet {
    /// The subnet whose parts the parser finds in the text, where they are
    /// in canonical form.
    open spec fn denoted(text: Seq<char>) -> Option<Self> {
        match cidr_ipv6(text) {
            Some((network, prefix_length)) => Ipv6Subnet::checked(network, prefix_length),
            None => None,
        }
    }

    fn parse(text: &str) -> (r: Option<Self>) {
        match parse_ipv6_cidr(text) {
            Some((network, prefix_length)) => Ipv6Subnet::new(network, prefix_length),
            None => None,
        }
    }
}

/// Whether some subnet of an IPv4 pool holds `address`.
pub open spec fn ipv4_pool_contains(pool: Seq<Ipv4Subnet>, address: u32) -> bool {
    exists|i: int| 0 <= i < pool.len() && (#[trigger] pool[i]).contains(address)
}

/// Whether some subnet of an IPv6 pool holds `address`.
pub open spec fn ipv6_pool_contains(pool: Seq<Ipv6Subnet>, address: u128) -> bool {
    exists|i: int| 0 <= i < pool.len() && (#[trigger] pool[i]).contains(address)
}

/// Picks one item of a slice with `rand::seq::SliceRandom::choose`, driven
/// by the generator of the calling thread. The contract states what the
/// method's source shows: nothing is picked from an empty slice, and what is
/// picked from another is one of its items. Which one is left open.
#[verifier::external_body]
fn choose_random<T>(items: &[T]) -> (picked: Option<&T>)
    ensures
        picked is None <==> items@.len() == 0,
        picked matches Some(item) ==> exists|i: int| 0 <= i < items@.len() && items@[i] == *item,
{
    items.choose(&mut rand::thread_rng())
}

/// A random 32-bit pattern from `rand::random`. Nothing is claimed of it.
#[verifier::external_body]
fn random_u32() -> (bits: u32) {
    rand::random::<u32>()
}

/// A random 128-bit pattern from `rand::random`. Nothing is claimed of it.
#[verifier::external_body]
fn random_u128() -> (bits: u128) {
    rand::random::<u128>()
}

/// A random 16-bit pattern from `rand::random`. Nothing is claimed of it.
#[verifier::external_body]
fn random_u16() -> (bits: u16) {
    rand::random::<u16>()
}

/// A random address of an IPv4 subnet: the subnet's network bits, random
/// host bits.
pub fn get_rand_ipv4(ipv4_cidr: &Ipv4Subnet) -> (ip: IpAddress)
    ensures
        ip matches IpAddress::V4(address) && ipv4_cidr.contains(address) && (
        ipv4_cidr.prefix_length() == 32 ==> address == ipv4_cidr.network()),
{
    if ipv4_cidr.network_length() != IPV4_BITS {
        let rand: u32 = random_u32();
        IpAddress::V4(ipv4_cidr.address_with_host_bits(rand))
    } else {
        proof {
            use_type_invariant(ipv4_cidr);
            lemma_ipv4_network_contained(ipv4_cidr.network(), ipv4_cidr.prefix_length());
        }
        IpAddress::V4(ipv4_cidr.first_address())
    }
}

/// A random address of an IPv6 subnet: the subnet's network bits, random
/// host bits.
pub fn get_rand_ipv6(ipv6_cidr: &Ipv6Subnet) -> (ip: IpAddress)
    ensures
        ip matches IpAddress::V6(address) && ipv6_cidr.contains(address) && (
        ipv6_cidr.prefix_length() == 128 ==> address == ipv6_cidr.network()),
{
    if ipv6_cidr.network_length() != IPV6_BITS {
        let rand: u128 = random_u128();
        IpAddress::V6(ipv6_cidr.address_with_host_bits(rand))
    } else {
        proof {
            use_type_invariant(ipv6_cidr);
            lemma_ipv6_network_contained(ipv6_cidr.network(), ipv6_cidr.prefix_length());
        }
        IpAddress::V6(ipv6_cidr.first_address())
    }
}

/// Whether `address` is an IPv4 address that some subnet of `pool` holds.
pub open spec fn in_ipv4_pool(pool: Seq<Ipv4Subnet>, address: SocketAddress) -> bool {
    address.ip matches IpAddress::V4(a) && ipv4_pool_contains(pool, a)
}

/// Whether `address` is an IPv6 address that some subnet of `pool` holds.
pub open spec fn in_ipv6_pool(pool: Seq<Ipv6Subnet>, address: SocketAddress) -> bool {
    address.ip matches IpAddress::V6(a) && ipv6_pool_contains(pool, a)
}

/// An egress address from an IPv4 pool: a random address of a randomly
/// chosen subnet, with a random port. Fails on an empty pool, and only then.
pub fn get_rand_ipv4_socket_addr(ipv4_subnets: &[Ipv4Subnet]) -> (r: Result<SocketAddress, Error>)
    ensures
        r is Err <==> ipv4_subnets@.len() == 0,
        r matches Err(e) ==> e is EmptyPool,
        r matches Ok(address) ==> in_ipv4_pool(ipv4_subnets@, address),
{
    match choose_random(ipv4_subnets) {
        None => Err(Error::EmptyPool),
        Some(ipv4_cidr) => {
            let ip_addr = get_rand_ipv4(ipv4_cidr);
            Ok(SocketAddress { ip: ip_addr, port: random_u16() })
        },
    }
}

/// An egress address from an IPv6 pool: a random address of a randomly
/// chosen subnet, with a random port. Fails on an empty pool, and only then.
pub fn get_rand_ipv6_socket_addr(ipv6_subnets: &[Ipv6Subnet]) -> (r: Result<SocketAddress, Error>)
    ensures
        r is Err <==> ipv6_subnets@.len() == 0,
        r matches Err(e) ==> e is EmptyPool,
        r matches Ok(address) ==> in_ipv6_pool(ipv6_subnets@, address),
{
    match choose_random(ipv6_subnets) {
        None => Err(Error::EmptyPool),
        Some(ipv6_cidr) => {
            let ip_addr = get_rand_ipv6(ipv6_cidr);
            Ok(SocketAddress { ip: ip_addr, port: random_u16() })
        },
    }
}

} // verus!
