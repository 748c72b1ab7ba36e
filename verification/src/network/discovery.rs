//! Service discovery over mDNS, UDP broadcast or both.
use vstd::prelude::*;

use super::mdns::{MdnsBroadcastName, MdnsBroadcastNameView};
use super::names::BroadcastServiceName;
use super::ServiceProtocol;
use super::addr::{InterfaceAddress, IpAddress};

verus! {

/// The mechanisms a service can be discovered by.
#[derive(Debug, Clone, Copy, PartialEq, Eq, Structural)]
pub enum DiscoveryProtocol {
    Mdns,
    Udp,
    Both,
}

impl DiscoveryProtocol {
    /// Whether this protocol announces over mDNS.
    pub fn uses_mdns(&self) -> (r: bool)
        ensures
            r == (*self != DiscoveryProtocol::Udp),
    {
        !matches!(self, DiscoveryProtocol::Udp)
    }

    /// Whether this protocol announces over UDP broadcast.
    pub fn uses_udp(&self) -> (r: bool)
        ensures
            r == (*self != DiscoveryProtocol::Mdns),
    {
        !matches!(self, DiscoveryProtocol::Mdns)
    }
}

/// The mDNS name a discovery broadcast uses for a service: the same instance,
/// subdomain and type, with the given protocol.
pub fn mdns_name_for(service_name: &BroadcastServiceName, service_protocol: ServiceProtocol) -> (r: MdnsBroadcastName)
    ensures
        r@ == (MdnsBroadcastNameView {
            instance_name: service_name@.instance_name,
            subdomain: service_name@.subdomain,
            type_label: service_name@.type_label,
            service_protocol,
        }),
{
    let mut mdns_name = MdnsBroadcastName::new(
        service_name.instance_name(),
        service_name.type_label(),
        service_protocol,
    );
    if let Some(subdomain) = service_name.subdomain() {
        mdns_name = mdns_name.with_subdomain(subdomain);
    }
    mdns_name
}

/// The addresses a UDP broadcast announces: the address on the default
/// route's network when there is one, every interface's address otherwise.
pub fn udp_broadcast_addresses(default_ip: Option<IpAddress>, interfaces: &Vec<InterfaceAddress>) -> (r: Vec<IpAddress>)
    ensures
        r@ == match default_ip {
            Some(ip) => seq![ip],
            None => interfaces@.map_values(|i: InterfaceAddress| i.spec_ip()),
        },
{
    match default_ip {
        Some(ip) => {
            let mut r = Vec::new();
            r.push(ip);
            assert(r@ =~= seq![ip]);
            r
        },
        None => {
            let mut r: Vec<IpAddress> = Vec::new();
            let mut i: usize = 0;
            while i < interfaces.len()
                invariant
                    i <= interfaces@.len(),
                    r@ == interfaces@.take(i as int).map_values(|a: InterfaceAddress| a.spec_ip()),
                decreases interfaces@.len() - i,
            {
                r.push(interfaces[i].ip());
                assert(interfaces@.take(i + 1) =~= interfaces@.take(i as int).push(interfaces@[i as int]));
                assert(r@ =~= interfaces@.take(i + 1).map_values(|a: InterfaceAddress| a.spec_ip()));
                i = i + 1;
            }
            assert(interfaces@.take(interfaces@.len() as int) =~= interfaces@);
            r
        },
    }
}

} // verus!
