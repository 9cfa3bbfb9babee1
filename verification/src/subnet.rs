//! Subnets in CIDR notation and their broadcast addresses.
//!
//! The text of a subnet is read by the `ipnetwork` crate, which also works
//! out the broadcast address. Both calls are trusted; what they are trusted
//! to return is stated here, and everything else is proved from it.

use ipnetwork::IpNetwork;
use ipnetwork::Ipv4Network;
use ipnetwork::Ipv6Network;
use vstd::prelude::*;

verus! {

/// Number of bits in an IPv4 address.
pub const IPV4_BITS: u8 = 32;

/// Number of bits in an IPv6 address.
pub const IPV6_BITS: u8 = 128;

/// An IP address, held as the number that its bytes write in network order.
#[derive(Clone, Copy, Debug, PartialEq, Eq, Structural)]
pub enum IpAddress {
    V4(u32),
    V6(u128),
}

/// A subnet: an address inside it and the number of leading bits that all
/// of its addresses share.
#[allow(inconsistent_fields)]
#[derive(Clone, Copy, Debug, PartialEq, Eq, Structural)]
pub enum Subnet {
    V4 { addr: u32, prefix: u8 },
    V6 { addr: u128, prefix: u8 },
}

/// The IPv4 network mask with `prefix` leading ones.
pub open spec fn v4_netmask(prefix: u8) -> u32 {
    if prefix == 0 {
        0u32
    } else {
        0xffff_ffffu32 << ((32 - prefix) as u32)
    }
}

/// The IPv6 network mask with `prefix` leading ones.
pub open spec fn v6_netmask(prefix: u8) -> u128 {
    if prefix == 0 {
        0u128
    } else {
        0xffff_ffff_ffff_ffff_ffff_ffff_ffff_ffffu128 << ((128 - prefix) as u128)
    }
}

/// The broadcast address of an IPv4 subnet: `addr` with every host bit set.
pub open spec fn v4_broadcast(addr: u32, prefix: u8) -> u32 {
    addr | !v4_netmask(prefix)
}

/// The all-ones-host address of an IPv6 subnet: `addr` with every host bit
/// set. IPv6 knows no broadcast; this is the same arithmetic as for IPv4.
pub open spec fn v6_broadcast(addr: u128, prefix: u8) -> u128 {
    addr | !v6_netmask(prefix)
}

impl Subnet {
    /// Whether the prefix length fits the address family.
    pub open spec fn wf(self) -> bool {
        match self {
            Subnet::V4 { addr, prefix } => prefix <= IPV4_BITS,
            Subnet::V6 { addr, prefix } => prefix <= IPV6_BITS,
        }
    }

    /// The broadcast address of the subnet.
    pub open spec fn spec_broadcast(self) -> IpAddress {
        match self {
            Subnet::V4 { addr, prefix } => IpAddress::V4(v4_broadcast(addr, prefix)),
            Subnet::V6 { addr, prefix } => IpAddress::V6(v6_broadcast(addr, prefix)),
        }
    }

    /// The broadcast address of the subnet: its address with all host bits
    /// set to one.
    pub fn broadcast(&self) -> (address: IpAddress)
        requires
            self.wf(),
        ensures
            address == self.spec_broadcast(),
    {
        match *self {
            Subnet::V4 { addr, prefix } => IpAddress::V4(ipv4_broadcast(addr, prefix)),
            Subnet::V6 { addr, prefix } => IpAddress::V6(ipv6_broadcast(addr, prefix)),
        }
    }
}

impl IpAddress {
    /// Whether this is an IPv4 address.
    pub fn is_ipv4(&self) -> (yes: bool)
        ensures
            yes == (*self is V4),
    {
        match *self {
            IpAddress::V4(_) => true,
            IpAddress::V6(_) => false,
        }
    }
}

/// The subnet that `text` denotes in CIDR notation, as `ipnetwork` reads
/// it, or `None` where it refuses the text.
pub uninterp spec fn cidr_network(text: Seq<char>) -> Option<Subnet>;

/// What `get_broadcast_addr` returns for a given reading of its text.
pub open spec fn broadcast_of(network: Option<Subnet>) -> Result<IpAddress, ()> {
    match network {
        Some(subnet) => Ok(subnet.spec_broadcast()),
        None => Err(()),
    }
}

/// Calls `<IpNetwork as FromStr>::from_str`, through `str::parse`.
///
/// Trusted: the outcome depends on the text alone, and a network that was
/// read has a prefix length within its address family (the crate builds
/// networks through `Ipv4Network::new` and `Ipv6Network::new`, which refuse
/// a longer one).
#[verifier::external_body]
fn parse_network(text: &str) -> (network: Option<Subnet>)
    ensures
        network == cidr_network(text@),
        network matches Some(subnet) ==> subnet.wf(),
{
    match text.parse::<IpNetwork>() {
        Ok(IpNetwork::V4(net)) => Some(Subnet::V4 { addr: net.ip().into(), prefix: net.prefix() }),
        Ok(IpNetwork::V6(net)) => Some(Subnet::V6 { addr: net.ip().into(), prefix: net.prefix() }),
        Err(_) => None,
    }
}

/// Calls `Ipv4Network::broadcast` on the network of `addr` and `prefix`.
///
/// Trusted: the result is `addr` or-ed with the complement of the network
/// mask, which is zero for a prefix of zero and otherwise all ones shifted
/// left by `32 - prefix`. `Ipv4Network::new` refuses only a prefix above
/// 32, which the precondition rules out.
#[verifier::external_body]
fn ipv4_broadcast(addr: u32, prefix: u8) -> (broadcast: u32)
    requires
        prefix <= IPV4_BITS,
    ensures
        broadcast == v4_broadcast(addr, prefix),
{
    match Ipv4Network::new(addr.into(), prefix) {
        Ok(net) => net.broadcast().into(),
        Err(_) => addr,
    }
}

/// Calls `Ipv6Network::broadcast` on the network of `addr` and `prefix`.
///
/// Trusted: the result is `addr` or-ed with the complement of the network
/// mask, which is zero for a prefix of zero and otherwise all ones shifted
/// left by `128 - prefix`. `Ipv6Network::new` refuses only a prefix above
/// 128, which the precondition rules out.
#[verifier::external_body]
fn ipv6_broadcast(addr: u128, prefix: u8) -> (broadcast: u128)
    requires
        prefix <= IPV6_BITS,
    ensures
        broadcast == v6_broadcast(addr, prefix),
{
    match Ipv6Network::new(addr.into(), prefix) {
        Ok(net) => net.broadcast().into(),
        Err(_) => addr,
    }
}

/// Reads a subnet in CIDR notation and returns its broadcast address.
///
/// Fails exactly on the texts that are no CIDR network.
pub fn get_broadcast_addr(subnet_str: &str) -> (result: Result<IpAddress, ()>)
    ensures
        result == broadcast_of(cidr_network(subnet_str@)),
{
    match parse_network(subnet_str) {
        Some(subnet) => Ok(subnet.broadcast()),
        None => Err(()),
    }
}

/// The broadcast address lies in the subnet: it has the network bits of
/// the subnet's address.
pub proof fn lemma_v4_broadcast_keeps_network(addr: u32, prefix: u8)
    requires
        prefix <= IPV4_BITS,
    ensures
        v4_broadcast(addr, prefix) & v4_netmask(prefix) == addr & v4_netmask(prefix),
{
    let mask = v4_netmask(prefix);
    assert((addr | !mask) & mask == addr & mask) by (bit_vector);
}

/// Every host bit of the broadcast address is one.
pub proof fn lemma_v4_broadcast_sets_host_bits(addr: u32, prefix: u8)
    requires
        prefix <= IPV4_BITS,
    ensures
        v4_broadcast(addr, prefix) & !v4_netmask(prefix) == !v4_netmask(prefix),
{
    let mask = v4_netmask(prefix);
    assert((addr | !mask) & !mask == !mask) by (bit_vector);
}

/// The broadcast address is the highest address of the subnet.
pub proof fn lemma_v4_broadcast_is_highest(addr: u32, prefix: u8, other: u32)
    requires
        prefix <= IPV4_BITS,
        other & v4_netmask(prefix) == addr & v4_netmask(prefix),
    ensures
        other <= v4_broadcast(addr, prefix),
{
    let mask = v4_netmask(prefix);
    assert(other <= (addr | !mask)) by (bit_vector)
        requires
            other & mask == addr & mask,
            mask == 0u32 || exists|n: u32| 0 <= n < 32 && mask == 0xffff_ffffu32 << n,
    ;
}

} // verus!
