//! Addresses as plain values: an IP address is the number its octets spell
//! in network order, a socket address adds a port.

use vstd::prelude::*;

verus! {

/// The number that a sequence of octets spells in network (big-endian) order.
pub open spec fn be_value(octets: Seq<u8>) -> nat
    decreases octets.len(),
{
    if octets.len() == 0 {
        0
    } else {
        be_value(octets.drop_last()) * 256 + octets.last() as nat
    }
}

/// 256 to the power `n`.
pub open spec fn pow256(n: nat) -> nat
    decreases n,
{
    if n == 0 {
        1
    } else {
        256 * pow256((n - 1) as nat)
    }
}

/// A big-endian value of `n` octets is below 256 to the `n`.
pub proof fn lemma_be_value_bound(octets: Seq<u8>)
    ensures
        be_value(octets) < pow256(octets.len()),
    decreases octets.len(),
{
    if octets.len() > 0 {
        lemma_be_value_bound(octets.drop_last());
    }
}

/// An IP address of either family, held as the big-endian value of its octets.
#[derive(Clone, Copy, Debug, PartialEq, Eq, Structural)]
pub enum IpAddress {
    V4(u32),
    V6(u128),
}

/// The IPv4 loopback address, 127.0.0.1.
pub const IPV4_LOOPBACK: u32 = 0x7f00_0001;

/// The IPv6 loopback address, ::1.
pub const IPV6_LOOPBACK: u128 = 1;

impl IpAddress {
    /// Whether the address is an IPv4 address.
    pub open spec fn is_ipv4(&self) -> bool {
        *self is V4
    }

    /// Whether the address is an IPv4 address.
    #[verifier::when_used_as_spec(is_ipv4)]
    pub fn is_v4(&self) -> (r: bool)
        ensures
            r == self.is_ipv4(),
    {
        match self {
            IpAddress::V4(_) => true,
            IpAddress::V6(_) => false,
        }
    }

    /// The IPv4 address spelled by four octets in network order; `None`
    /// unless exactly four octets are given.
    pub fn from_v4_octets(octets: &[u8]) -> (r: Option<IpAddress>)
        ensures
            octets@.len() == 4 <==> r is Some,
            r is Some ==> r == Some(IpAddress::V4(be_value(octets@) as u32)),
            r is Some ==> be_value(octets@) <= u32::MAX,
    {
        if octets.len() != 4 {
            return None;
        }
        let mut value: u32 = 0;
        let mut i: usize = 0;
        while i < 4
            invariant
                octets@.len() == 4,
                i <= 4,
                value == be_value(octets@.take(i as int)),
                value < pow256(i as nat),
            decreases 4 - i,
        {
            proof {
                lemma_be_value_step(octets@, i as int);
                reveal_with_fuel(pow256, 5);
            }
            value = value * 256 + octets[i] as u32;
            i += 1;
        }
        proof {
            assert(octets@.take(4) =~= octets@);
        }
        Some(IpAddress::V4(value))
    }

    /// The IPv6 address spelled by sixteen octets in network order; `None`
    /// unless exactly sixteen octets are given.
    pub fn from_v6_octets(octets: &[u8]) -> (r: Option<IpAddress>)
        ensures
            octets@.len() == 16 <==> r is Some,
            r is Some ==> r == Some(IpAddress::V6(be_value(octets@) as u128)),
            r is Some ==> be_value(octets@) <= u128::MAX,
    {
        if octets.len() != 16 {
            return None;
        }
        let mut value: u128 = 0;
        let mut i: usize = 0;
        while i < 16
            invariant
                octets@.len() == 16,
                i <= 16,
                value == be_value(octets@.take(i as int)),
                value < pow256(i as nat),
            decreases 16 - i,
        {
            proof {
                lemma_be_value_step(octets@, i as int);
                reveal_with_fuel(pow256, 17);
            }
            value = value * 256 + octets[i] as u128;
            i += 1;
        }
        proof {
            assert(octets@.take(16) =~= octets@);
        }
        Some(IpAddress::V6(value))
    }
}

/// The port spelled by two octets in network order; `None` unless exactly
/// two octets are given.
pub fn port_from_octets(octets: &[u8]) -> (r: Option<u16>)
    ensures
        octets@.len() == 2 <==> r is Some,
        r is Some ==> r == Some(be_value(octets@) as u16),
        r is Some ==> be_value(octets@) == octets@[0] as nat * 256 + octets@[1] as nat,
{
    if octets.len() != 2 {
        return None;
    }
    proof {
        lemma_be_value_step(octets@, 1);
        lemma_be_value_step(octets@, 0);
        assert(octets@.take(2) =~= octets@);
        assert(be_value(octets@.take(0)) == 0);
    }
    let high: u16 = octets[0] as u16;
    let low: u16 = octets[1] as u16;
    Some(high * 256 + low)
}

/// Reading one more octet multiplies the value read so far by 256 and adds
/// the octet.
pub proof fn lemma_be_value_step(octets: Seq<u8>, i: int)
    requires
        0 <= i < octets.len(),
    ensures
        be_value(octets.take(i + 1)) == be_value(octets.take(i)) * 256 + octets[i] as nat,
{
    let next = octets.take(i + 1);
    assert(next.drop_last() =~= octets.take(i));
    assert(next.last() == octets[i]);
}

/// An IP address and a port.
#[derive(Clone, Copy, Debug, PartialEq, Eq, Structural)]
pub struct SocketAddress {
    pub ip: IpAddress,
    pub port: u16,
}

} // verus!
