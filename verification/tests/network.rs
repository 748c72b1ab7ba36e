use daemon_slayer::network::addr::{
    get_default_ip_from_route, is_address_in_route, InterfaceAddress, IpAddress,
};
use daemon_slayer::network::discovery::{mdns_name_for, DiscoveryProtocol};
use daemon_slayer::network::mdns::{MdnsBroadcastName, MdnsQueryName};
use daemon_slayer::network::mdns_broadcast::{
    select_announce_address, MdnsBroadcastName as FirstMdnsBroadcastName,
};
use daemon_slayer::network::names::{BroadcastServiceName, QueryServiceName};
use daemon_slayer::network::{NameParseError, ServiceMetadata, ServiceProtocol};
use std::collections::HashMap;

#[test]
fn protocol_names() {
    assert_eq!(ServiceProtocol::Tcp.to_string(), "tcp");
    assert_eq!(ServiceProtocol::Udp.to_string(), "udp");
    assert_eq!(ServiceProtocol::from_str("udp"), Ok(ServiceProtocol::Udp));
    assert_eq!(ServiceProtocol::from_str("tcp"), Ok(ServiceProtocol::Tcp));
    assert_eq!(ServiceProtocol::from_str("TCP"), Err(NameParseError::PatternMismatch));
    assert_eq!(ServiceProtocol::default(), ServiceProtocol::Tcp);
}

#[test]
fn protocol_round_trip() {
    for p in [ServiceProtocol::Tcp, ServiceProtocol::Udp] {
        assert_eq!(ServiceProtocol::from_str(&p.to_string()), Ok(p));
    }
}

#[test]
fn mdns_service_type_without_subdomain() {
    let name = MdnsBroadcastName::new("test", "servicetest", ServiceProtocol::Tcp);
    assert_eq!(name.service_type(), "_servicetest._tcp.local.");
    assert_eq!(name.to_string(), "test._servicetest._tcp.local.");
    assert_eq!(name.instance_name(), "test");
    assert_eq!(name.type_label(), "servicetest");
    assert_eq!(name.subdomain(), None);
    assert_eq!(name.service_protocol(), ServiceProtocol::Tcp);
}

#[test]
fn mdns_service_type_with_subdomain() {
    let name = MdnsBroadcastName::new("inst", "web", ServiceProtocol::Udp).with_subdomain("printer");
    assert_eq!(name.service_type(), "printer._sub._web._udp.local.");
    assert_eq!(name.to_string(), "inst.printer._sub._web._udp.local.");
    assert_eq!(name.subdomain(), Some("printer"));
}

#[test]
fn mdns_broadcast_name_round_trip() {
    let name = MdnsBroadcastName::new("my-box_1", "http", ServiceProtocol::Tcp).with_subdomain("a");
    let text = name.to_string();
    let parsed = MdnsBroadcastName::from_str(&text).unwrap();
    assert_eq!(parsed.to_string(), text);
    assert_eq!(parsed.instance_name(), "my-box_1");
    assert_eq!(parsed.subdomain(), Some("a"));
    assert_eq!(parsed.type_label(), "http");
    assert_eq!(parsed.service_protocol(), ServiceProtocol::Tcp);

    let plain = MdnsBroadcastName::new("x", "y", ServiceProtocol::Udp);
    let parsed = MdnsBroadcastName::from_str(&plain.to_string()).unwrap();
    assert_eq!(parsed.subdomain(), None);
    assert_eq!(parsed.type_label(), "y");
    assert_eq!(parsed.service_protocol(), ServiceProtocol::Udp);
}

#[test]
fn mdns_broadcast_name_any_char_after_sub() {
    let parsed = MdnsBroadcastName::from_str("i.s._subX_t._tcp.local.").unwrap();
    assert_eq!(parsed.subdomain(), Some("s"));
    assert_eq!(parsed.type_label(), "t");
    assert!(MdnsBroadcastName::from_str("i.s._sub\n_t._tcp.local.").is_err());
}

#[test]
fn mdns_broadcast_name_rejects() {
    for bad in [
        "",
        "test",
        "test.",
        "._t._tcp.local.",
        "test._t._sctp.local.",
        "test._t._tcp.local",
        "test.t._tcp.local.",
        "te st._t._tcp.local.",
        "test.__tcp.local.",
        "test._t._tcp.local.x",
        "test.s._sub._t._tcp.local..",
    ] {
        assert_eq!(
            MdnsBroadcastName::from_str(bad).err(),
            Some(NameParseError::PatternMismatch),
            "{bad}"
        );
    }
}

#[test]
fn mdns_query_name() {
    let q = MdnsQueryName::new("servicetest", ServiceProtocol::Tcp);
    assert_eq!(q.to_string(), "_servicetest._tcp.local.");
    let q2 = q.clone().with_subdomain("sub");
    assert_eq!(q2.to_string(), "sub._sub._servicetest._tcp.local.");
    assert_eq!(MdnsQueryName::from_str(&q2.to_string()), Ok(q2));
    assert_eq!(MdnsQueryName::from_str(&q.to_string()), Ok(q));
    assert!(MdnsQueryName::from_str("servicetest._tcp.local.").is_err());
}

#[test]
fn first_mdns_broadcast_name() {
    let name = FirstMdnsBroadcastName::new("a", "b", ServiceProtocol::Tcp).with_subdomain("c");
    assert_eq!(name.service_type(), "c._sub._b._tcp.local.");
    assert_eq!(name.to_string(), "a.c._sub._b._tcp.local.");
    let parsed = FirstMdnsBroadcastName::from_str("a.c._sub._b._tcp.local.").unwrap();
    assert_eq!(parsed.instance_name(), "a");
    assert_eq!(parsed.to_string(), "a.c._sub._b._tcp.local.");
}

#[test]
fn broadcast_service_name() {
    let n = BroadcastServiceName::new("inst", "kind");
    assert_eq!(n.instance_name(), "inst");
    assert_eq!(n.type_label(), "kind");
    assert_eq!(n.subdomain(), None);
    let n2 = n.clone().with_subdomain("sub");
    assert_eq!(n2.subdomain(), Some("sub"));
    assert_eq!(BroadcastServiceName::from_str("inst.kind"), Ok(n));
    assert_eq!(BroadcastServiceName::from_str("inst.sub.kind"), Ok(n2));
    for bad in ["", "inst", "inst.", ".kind", "a.b.c.d", "a..b", "a.b.", "a b.c"] {
        assert!(BroadcastServiceName::from_str(bad).is_err(), "{bad}");
    }
    assert_eq!(BroadcastServiceName::default().instance_name(), "");
}

#[test]
fn query_service_name_greedy_subdomain() {
    let q = QueryServiceName::from_str("abc").unwrap();
    assert_eq!(q.subdomain(), Some("ab"));
    assert_eq!(q.type_label(), "c");
    let single = QueryServiceName::from_str("x").unwrap();
    assert_eq!(single.subdomain(), None);
    assert_eq!(single.type_label(), "x");
    assert!(QueryServiceName::from_str("").is_err());
    assert!(QueryServiceName::from_str("a.b").is_err());
    let built = QueryServiceName::new("svc").with_subdomain("sub");
    assert_eq!(built.subdomain(), Some("sub"));
    assert_eq!(built.type_label(), "svc");
}

fn v4(a: u8, b: u8, c: u8, d: u8) -> u32 {
    u32::from_be_bytes([a, b, c, d])
}

#[test]
fn address_in_route_v4() {
    let iface = InterfaceAddress::V4 {
        ip: v4(192, 168, 1, 20),
        netmask: v4(255, 255, 255, 0),
        broadcast: Some(v4(192, 168, 1, 255)),
    };
    assert!(is_address_in_route(&iface, &IpAddress::V4(v4(192, 168, 1, 1))));
    assert!(!is_address_in_route(&iface, &IpAddress::V4(v4(10, 0, 0, 1))));
    assert!(!is_address_in_route(&iface, &IpAddress::V6(1)));
    let no_broadcast = InterfaceAddress::V4 {
        ip: v4(192, 168, 1, 20),
        netmask: v4(255, 255, 255, 0),
        broadcast: None,
    };
    assert!(!is_address_in_route(&no_broadcast, &IpAddress::V4(v4(192, 168, 1, 1))));
    // A netmask of 255.255.240.0 counts two whole octets: a /16 network.
    let partial = InterfaceAddress::V4 {
        ip: v4(172, 16, 3, 4),
        netmask: v4(255, 255, 240, 0),
        broadcast: Some(v4(172, 16, 255, 255)),
    };
    assert!(is_address_in_route(&partial, &IpAddress::V4(v4(172, 16, 0, 1))));
    // An all-ones netmask: the route address itself is the broadcast address.
    let host = InterfaceAddress::V4 {
        ip: v4(10, 0, 0, 2),
        netmask: u32::MAX,
        broadcast: Some(v4(10, 0, 0, 1)),
    };
    assert!(is_address_in_route(&host, &IpAddress::V4(v4(10, 0, 0, 1))));
}

#[test]
fn address_in_route_v6() {
    let prefix: u128 = 0xfe80_0000_0000_0000u128 << 64;
    let iface = InterfaceAddress::V6 {
        ip: prefix | 5,
        netmask: u128::MAX << 64,
        broadcast: Some(prefix | (u64::MAX as u128)),
    };
    assert!(is_address_in_route(&iface, &IpAddress::V6(prefix | 1)));
    assert!(!is_address_in_route(&iface, &IpAddress::V4(1)));
}

#[test]
fn default_ip_is_first_match() {
    let other = InterfaceAddress::V4 {
        ip: v4(10, 0, 0, 5),
        netmask: v4(255, 0, 0, 0),
        broadcast: Some(v4(10, 255, 255, 255)),
    };
    let first = InterfaceAddress::V4 {
        ip: v4(192, 168, 1, 20),
        netmask: v4(255, 255, 255, 0),
        broadcast: Some(v4(192, 168, 1, 255)),
    };
    let second = InterfaceAddress::V4 {
        ip: v4(192, 168, 1, 30),
        netmask: v4(255, 255, 255, 0),
        broadcast: Some(v4(192, 168, 1, 255)),
    };
    let ifs = vec![other, first, second];
    let gw = Some(IpAddress::V4(v4(192, 168, 1, 1)));
    assert_eq!(get_default_ip_from_route(gw, &ifs), Some(IpAddress::V4(v4(192, 168, 1, 20))));
    assert_eq!(select_announce_address(gw, &ifs), Some(IpAddress::V4(v4(192, 168, 1, 30))));
    assert_eq!(get_default_ip_from_route(None, &ifs), None);
    assert_eq!(select_announce_address(None, &ifs), None);
    let far = Some(IpAddress::V4(v4(8, 8, 8, 8)));
    assert_eq!(get_default_ip_from_route(far, &ifs), None);
}

#[test]
fn discovery_names() {
    let name = BroadcastServiceName::new("inst", "kind").with_subdomain("sub");
    let mdns = mdns_name_for(&name, ServiceProtocol::Udp);
    assert_eq!(mdns.to_string(), "inst.sub._sub._kind._udp.local.");
    assert!(DiscoveryProtocol::Both.uses_mdns() && DiscoveryProtocol::Both.uses_udp());
    assert!(DiscoveryProtocol::Mdns.uses_mdns() && !DiscoveryProtocol::Mdns.uses_udp());
    assert!(!DiscoveryProtocol::Udp.uses_mdns() && DiscoveryProtocol::Udp.uses_udp());
}

#[test]
fn service_metadata() {
    let mut m = HashMap::new();
    m.insert("k".to_owned(), "v".to_owned());
    assert_eq!(m.metadata(), m);
    assert_eq!(<HashMap<String, String> as ServiceMetadata>::from_metadata(m.clone()), m);
    let none: Option<HashMap<String, String>> = None;
    assert!(none.metadata().is_empty());
    assert_eq!(
        <Option<HashMap<String, String>> as ServiceMetadata>::from_metadata(m.clone()),
        Some(m)
    );
}
