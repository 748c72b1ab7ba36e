//! Network addresses and the choice of the address a service is announced on.
use vstd::prelude::*;

verus! {

/// An IP address; version 4 addresses as their 32-bit value, version 6
/// addresses as their 128-bit value (most significant octet first).
#[derive(Debug, Clone, Copy, PartialEq, Eq, Structural)]
pub enum IpAddress {
    V4(u32),
    V6(u128),
}

/// The address of a network interface with its netmask and broadcast address.
#[derive(Debug, Clone, Copy, PartialEq, Eq, Structural)]
pub enum InterfaceAddress {
    V4 { ip: u32, netmask: u32, broadcast: Option<u32> },
    V6 { ip: u128, netmask: u128, broadcast: Option<u128> },
}

impl InterfaceAddress {
    pub open spec fn spec_ip(&self) -> IpAddress {
        match self {
            InterfaceAddress::V4 { ip, .. } => IpAddress::V4(*ip),
            InterfaceAddress::V6 { ip, .. } => IpAddress::V6(*ip),
        }
    }

    /// The interface's own address.
    #[verifier::when_used_as_spec(spec_ip)]
    pub fn ip(&self) -> (r: IpAddress)
        ensures
            r == self.spec_ip(),
    {
        match self {
            InterfaceAddress::V4 { ip, .. } => IpAddress::V4(*ip),
            InterfaceAddress::V6 { ip, .. } => IpAddress::V6(*ip),
        }
    }
}

/// Octet `k` (counting from the most significant) of a version 4 value.
pub open spec fn octet_v4(m: u32, k: int) -> u8 {
    ((m >> ((24 - 8 * k) as u32)) & 0xffu32) as u8
}

/// Octet `k` (counting from the most significant) of a version 6 value.
pub open spec fn octet_v6(m: u128, k: int) -> u8 {
    ((m >> ((120 - 8 * k) as u32)) & 0xffu128) as u8
}

pub open spec fn octets_v4(m: u32) -> Seq<u8> {
    Seq::new(4, |k: int| octet_v4(m, k))
}

pub open spec fn octets_v6(m: u128) -> Seq<u8> {
    Seq::new(16, |k: int| octet_v6(m, k))
}

/// How many octets at the front of `s` are 255.
pub open spec fn leading_full_octets(s: Seq<u8>) -> nat
    decreases s.len(),
{
    if s.len() == 0 || s[0] != 255 {
        0
    } else {
        1 + leading_full_octets(s.drop_first())
    }
}

/// The prefix length read off a netmask: eight bits for each leading octet
/// that is 255.
pub open spec fn mask_prefix_v4(netmask: u32) -> nat {
    8 * leading_full_octets(octets_v4(netmask))
}

pub open spec fn mask_prefix_v6(netmask: u128) -> nat {
    8 * leading_full_octets(octets_v6(netmask))
}

/// The host part of a version 4 network with the given prefix length.
pub open spec fn hostmask_v4(prefix_len: u8) -> u32 {
    if prefix_len >= 32 {
        0
    } else {
        u32::MAX >> prefix_len
    }
}

/// The host part of a version 6 network with the given prefix length.
pub open spec fn hostmask_v6(prefix_len: u8) -> u128 {
    if prefix_len >= 128 {
        0
    } else {
        u128::MAX >> prefix_len
    }
}

/// The broadcast address of the version 4 network of `addr` with prefix
/// length `prefix_len`, by `ipnet::Ipv4Net::new` and `Ipv4Net::broadcast`.
/// Claims what ipnet's source shows: the network exists exactly when the
/// prefix length is at most 32, and its broadcast address is the address with
/// every host bit set.
#[verifier::external_body]
fn ipv4_net_broadcast(addr: u32, prefix_len: u8) -> (r: Option<u32>)
    ensures
        r is Some <==> prefix_len <= 32,
        r matches Some(b) ==> b == addr | hostmask_v4(prefix_len),
{
    match ipnet::Ipv4Net::new(addr.into(), prefix_len) {
        Ok(net) => Some(u32::from(net.broadcast())),
        Err(_) => None,
    }
}

/// The broadcast address of the version 6 network of `addr` with prefix
/// length `prefix_len`, by `ipnet::Ipv6Net::new` and `Ipv6Net::broadcast`.
/// Claims what ipnet's source shows: the network exists exactly when the
/// prefix length is at most 128, and its broadcast address is the address
/// with every host bit set.
#[verifier::external_body]
fn ipv6_net_broadcast(addr: u128, prefix_len: u8) -> (r: Option<u128>)
    ensures
        r is Some <==> prefix_len <= 128,
        r matches Some(b) ==> b == addr | hostmask_v6(prefix_len),
{
    match ipnet::Ipv6Net::new(addr.into(), prefix_len) {
        Ok(net) => Some(u128::from(net.broadcast())),
        Err(_) => None,
    }
}

/// If the first `c` octets are 255 and the next is not (or there is none),
/// then exactly `c` octets lead.
proof fn lemma_leading_is(s: Seq<u8>, c: int)
    requires
        0 <= c <= s.len(),
        forall|j: int| 0 <= j < c ==> s[j] == 255,
        c == s.len() || s[c] != 255,
    ensures
        leading_full_octets(s) == c,
    decreases c,
{
    if c > 0 {
        let t = s.drop_first();
        assert forall|j: int| 0 <= j < c - 1 implies t[j] == 255 by {
            assert(t[j] == s[j + 1]);
        }
        if c < s.len() {
            assert(t[c - 1] == s[c]);
        }
        lemma_leading_is(t, c - 1);
    }
}

fn mask_prefix_v4_exec(netmask: u32) -> (r: u8)
    ensures
        r as nat == mask_prefix_v4(netmask),
        r <= 32,
{
    let mut c: u32 = 0;
    while c < 4 && ((netmask >> (24 - 8 * c)) & 0xff) as u8 == 255
        invariant
            c <= 4,
            forall|j: int| 0 <= j < c ==> octets_v4(netmask)[j] == 255,
        decreases 4 - c,
    {
        c = c + 1;
    }
    proof {
        lemma_leading_is(octets_v4(netmask), c as int);
    }
    (8 * c) as u8
}

fn mask_prefix_v6_exec(netmask: u128) -> (r: u8)
    ensures
        r as nat == mask_prefix_v6(netmask),
        r <= 128,
{
    let mut c: u32 = 0;
    while c < 16 && ((netmask >> (120 - 8 * c)) & 0xff) as u8 == 255
        invariant
            c <= 16,
            forall|j: int| 0 <= j < c ==> octets_v6(netmask)[j] == 255,
        decreases 16 - c,
    {
        c = c + 1;
    }
    proof {
        lemma_leading_is(octets_v6(netmask), c as int);
    }
    (8 * c) as u8
}

/// Whether the interface address lies on the network of the route address:
/// both of the same version, the interface has a broadcast address, and the
/// route address with the interface's host bits set is that broadcast address.
pub open spec fn address_in_route(if_addr: InterfaceAddress, route: IpAddress) -> bool {
    match (if_addr, route) {
        (InterfaceAddress::V4 { netmask, broadcast: Some(b), .. }, IpAddress::V4(r)) => (r
            | hostmask_v4(mask_prefix_v4(netmask) as u8)) == b,
        (InterfaceAddress::V6 { netmask, broadcast: Some(b), .. }, IpAddress::V6(r)) => (r
            | hostmask_v6(mask_prefix_v6(netmask) as u8)) == b,
        _ => false,
    }
}

/// Whether `if_addr` belongs to the network that `default_route` points into.
pub fn is_address_in_route(if_addr: &InterfaceAddress, default_route: &IpAddress) -> (r: bool)
    ensures
        r == address_in_route(*if_addr, *default_route),
{
    match (if_addr, default_route) {
        (InterfaceAddress::V4 { netmask, broadcast, .. }, IpAddress::V4(default_addr)) => {
            if let Some(broadcast) = broadcast {
                let mask = mask_prefix_v4_exec(*netmask);
                if let Some(net_broadcast) = ipv4_net_broadcast(*default_addr, mask) {
                    return net_broadcast == *broadcast;
                }
            }
        },
        (InterfaceAddress::V6 { netmask, broadcast, .. }, IpAddress::V6(default_addr)) => {
            if let Some(broadcast) = broadcast {
                let mask = mask_prefix_v6_exec(*netmask);
                if let Some(net_broadcast) = ipv6_net_broadcast(*default_addr, mask) {
                    return net_broadcast == *broadcast;
                }
            }
        },
        _ => {
            return false;
        },
    }
    false
}

/// The address of the first interface that lies in the route's network.
pub open spec fn is_first_in_route(ifs: Seq<InterfaceAddress>, gateway: IpAddress, i: int) -> bool {
    &&& 0 <= i < ifs.len()
    &&& address_in_route(ifs[i], gateway)
    &&& forall|j: int| 0 <= j < i ==> !address_in_route(#[trigger] ifs[j], gateway)
}

/// Picks the address to announce: the address of the first interface that
/// lies on the network of the default route's gateway, if the route has a
/// gateway and such an interface exists.
pub fn get_default_ip_from_route(gateway: Option<IpAddress>, interfaces: &Vec<InterfaceAddress>) -> (r: Option<IpAddress>)
    ensures
        match r {
            Some(ip) => gateway is Some && exists|i: int|
                is_first_in_route(interfaces@, gateway->0, i) && ip == #[trigger] interfaces@[i].spec_ip(),
            None => gateway is Some ==> forall|i: int|
                0 <= i < interfaces@.len() ==> !address_in_route(#[trigger] interfaces@[i], gateway->0),
        },
{
    if let Some(default_route) = gateway {
        let mut i: usize = 0;
        while i < interfaces.len()
            invariant
                gateway == Some(default_route),
                i <= interfaces@.len(),
                forall|j: int| 0 <= j < i ==> !address_in_route(#[trigger] interfaces@[j], default_route),
            decreases interfaces.len() - i,
        {
            if is_address_in_route(&interfaces[i], &default_route) {
                let ip = interfaces[i].ip();
                proof {
                    assert(is_first_in_route(interfaces@, default_route, i as int));
                    assert(ip == interfaces@[i as int].spec_ip());


                }
                return Some(ip);
            }
            i = i + 1;
        }
    }
    None
}

} // verus!
