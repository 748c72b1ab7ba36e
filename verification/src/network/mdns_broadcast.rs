//! The first form of the mDNS announcer: its service name and the choice of
//! the address it announces.
use vstd::prelude::*;

use super::addr::{address_in_route, is_address_in_route, InterfaceAddress, IpAddress};
use super::mdns::{broadcast_name_matches, MdnsBroadcastNameView};
use super::service_type::service_type_string;
use crate::text::opt_view;
use super::{NameParseError, ServiceProtocol};

verus! {

/// The name a service is announced under,
/// `<instance>.[<subdomain>._sub.]_<type>._<protocol>.local.`.
#[derive(Debug)]
pub struct MdnsBroadcastName {
    instance_name: String,
    subdomain: Option<String>,
    type_label: String,
    service_protocol: ServiceProtocol,
}

impl View for MdnsBroadcastName {
    type V = MdnsBroadcastNameView;

    closed spec fn view(&self) -> MdnsBroadcastNameView {
        MdnsBroadcastNameView {
            instance_name: self.instance_name@,
            subdomain: opt_view(self.subdomain),
            type_label: self.type_label@,
            service_protocol: self.service_protocol,
        }
    }
}

impl MdnsBroadcastName {
    pub fn new(instance_name: &str, type_label: &str, service_protocol: ServiceProtocol) -> (r: Self)
        ensures
            r@ == (MdnsBroadcastNameView {
                instance_name: instance_name@,
                subdomain: None,
                type_label: type_label@,
                service_protocol,
            }),
    {
        MdnsBroadcastName {
            subdomain: None,
            instance_name: instance_name.to_owned(),
            type_label: type_label.to_owned(),
            service_protocol,
        }
    }

    pub fn with_subdomain(self, subdomain: &str) -> (r: Self)
        ensures
            r@ == (MdnsBroadcastNameView { subdomain: Some(subdomain@), ..self@ }),
    {
        MdnsBroadcastName { subdomain: Some(subdomain.to_owned()), ..self }
    }

    pub fn instance_name(&self) -> (r: &str)
        ensures
            r@ == self@.instance_name,
    {
        self.instance_name.as_str()
    }

    /// `[<subdomain>._sub.]_<type>._<protocol>.local.`
    pub fn service_type(&self) -> (r: String)
        ensures
            r@ == self@.service_type_text(),
    {
        service_type_string(&self.subdomain, &self.type_label, self.service_protocol)
    }

    /// The full name, `<instance>.<service type>`.
    pub fn to_string(&self) -> (r: String)
        ensures
            r@ == self@.text(),
    {
        let mut r = self.instance_name.clone();
        proof {
            reveal_strlit(".");
        }
        r.append(".");
        let t = self.service_type();
        r.append(t.as_str());
        proof {
            assert(r@ =~= self@.text());
        }
        r
    }

    /// Reads a name written as `<instance>.[<subdomain>._sub?]_<type>._<tcp|udp>.local.`,
    /// where `?` is any character but a line feed.
    pub fn from_str(s: &str) -> (r: Result<Self, NameParseError>)
        ensures
            match r {
                Ok(name) => broadcast_name_matches(s@, name@),
                Err(_) => forall|v: MdnsBroadcastNameView| !#[trigger] broadcast_name_matches(s@, v),
            },
    {
        match super::mdns::MdnsBroadcastName::from_str(s) {
            Ok(name) => {
                let subdomain = match name.subdomain() {
                    Some(x) => Some(x.to_owned()),
                    None => None,
                };
                Ok(
                    MdnsBroadcastName {
                        instance_name: name.instance_name().to_owned(),
                        subdomain,
                        type_label: name.type_label().to_owned(),
                        service_protocol: name.service_protocol(),
                    },
                )
            },
            Err(e) => Err(e),
        }
    }
}

/// The last interface address, in the order given, that lies on the network
/// the route's gateway points into.
pub open spec fn is_last_in_route(ifs: Seq<InterfaceAddress>, gateway: IpAddress, i: int) -> bool {
    &&& 0 <= i < ifs.len()
    &&& address_in_route(ifs[i], gateway)
    &&& forall|j: int| i < j < ifs.len() ==> !address_in_route(#[trigger] ifs[j], gateway)
}

/// The address this announcer uses: every interface on the gateway's network
/// is looked at in turn and the last one wins; with no gateway, or no such
/// interface, there is none (and the announcer lets the daemon pick).
pub fn select_announce_address(gateway: Option<IpAddress>, interfaces: &Vec<InterfaceAddress>) -> (r: Option<IpAddress>)
    ensures
        match r {
            Some(ip) => gateway is Some && exists|i: int|
                is_last_in_route(interfaces@, gateway->0, i) && ip == #[trigger] interfaces@[i].spec_ip(),
            None => gateway is Some ==> forall|i: int|
                0 <= i < interfaces@.len() ==> !address_in_route(#[trigger] interfaces@[i], gateway->0),
        },
{
    let mut address: Option<IpAddress> = None;
    if let Some(default_route) = gateway {
        let ghost mut last: int = -1;
        let mut i: usize = 0;
        while i < interfaces.len()
            invariant
                gateway == Some(default_route),
                i <= interfaces@.len(),
                -1 <= last < i,
                last == -1 ==> address is None && forall|j: int|
                    0 <= j < i ==> !address_in_route(#[trigger] interfaces@[j], default_route),
                last >= 0 ==> address == Some(interfaces@[last].spec_ip()) && address_in_route(
                    interfaces@[last],
                    default_route,
                ) && forall|j: int|
                    last < j < i ==> !address_in_route(#[trigger] interfaces@[j], default_route),
            decreases interfaces.len() - i,
        {
            if is_address_in_route(&interfaces[i], &default_route) {
                address = Some(interfaces[i].ip());
                proof {
                    last = i as int;
                }
            }
            i = i + 1;
        }
        proof {
            if last >= 0 {
                assert(is_last_in_route(interfaces@, default_route, last));
            }
        }
    }
    address
}

} // verus!
