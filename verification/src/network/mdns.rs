//! mDNS service names: the name a service is advertised under and the name
//! a query looks for.
use vstd::prelude::*;

use super::grammar::{ident_run_end, is_ident, is_run_end, lemma_ident_is_run, lemma_run_end_unique};
use super::service_type::{
    lemma_service_type_text_matches, lemma_service_type_unique, parse_service_type,
    service_type_matches, service_type_string, service_type_text,
};
use super::addr::IpAddress;
use crate::text::opt_view;
use super::{NameParseError, ServiceProtocol};
use mdns_sd::{ServiceEvent, ServiceInfo};

verus! {

/// The parts of an advertised mDNS name.
pub struct MdnsBroadcastNameView {
    pub instance_name: Seq<char>,
    pub subdomain: Option<Seq<char>>,
    pub type_label: Seq<char>,
    pub service_protocol: ServiceProtocol,
}

impl MdnsBroadcastNameView {
    /// Every part is a non-empty run of identifier characters.
    pub open spec fn well_formed(self) -> bool {
        &&& is_ident(self.instance_name)
        &&& is_ident(self.type_label)
        &&& (self.subdomain matches Some(x) ==> is_ident(x))
    }

    /// `<subdomain>._sub._<type>._<protocol>.local.` or `_<type>._<protocol>.local.`
    pub open spec fn service_type_text(self) -> Seq<char> {
        service_type_text(self.subdomain, self.type_label, self.service_protocol)
    }

    /// `<instance>.<service type>`
    pub open spec fn text(self) -> Seq<char> {
        self.instance_name + seq!['.'] + self.service_type_text()
    }
}

/// `s` is the advertised name whose parts are `v`: an instance name, a dot and
/// a service type.
pub open spec fn broadcast_name_matches(s: Seq<char>, v: MdnsBroadcastNameView) -> bool {
    let k = v.instance_name.len() as int;
    &&& is_ident(v.instance_name)
    &&& s.len() > k
    &&& s.subrange(0, k) == v.instance_name
    &&& s[k] == '.'
    &&& service_type_matches(s.subrange(k + 1, s.len() as int), v.subdomain, v.type_label, v.service_protocol)
}

/// The name a service is advertised under:
/// `<instance>.[<subdomain>._sub.]_<type>._<protocol>.local.`.
#[derive(Debug, Clone)]
pub struct MdnsBroadcastName {
    instance_name: String,
    subdomain: Option<String>,
    type_label: String,
    service_protocol: ServiceProtocol,
}

impl View for MdnsBroadcastName {
    type V = MdnsBroadcastNameView;

    closed spec fn view(&self) -> MdnsBroadcastNameView {
        MdnsBroadcastNameView {
            instance_name: self.instance_name@,
            subdomain: opt_view(self.subdomain),
            type_label: self.type_label@,
            service_protocol: self.service_protocol,
        }
    }
}

/// Reads `<instance>.` and then a service type; on success gives the end of
/// the instance name and the parts of the service type.
fn parse_broadcast_parts(s: &str) -> (r: Option<
    (usize, Option<(usize, usize)>, (usize, usize), ServiceProtocol),
>)
    ensures
        r matches Some((k, sub, ty, pr)) ==> {
            &&& k < s@.len()
            &&& ty.0 <= ty.1 <= s@.len()
            &&& (sub matches Some(sr) ==> sr.0 <= sr.1 <= s@.len())
            &&& broadcast_name_matches(
                s@,
                MdnsBroadcastNameView {
                    instance_name: s@.subrange(0, k as int),
                    subdomain: match sub {
                        Some(sr) => Some(s@.subrange(sr.0 as int, sr.1 as int)),
                        None => None,
                    },
                    type_label: s@.subrange(ty.0 as int, ty.1 as int),
                    service_protocol: pr,
                },
            )
        },
        r is None ==> forall|v: MdnsBroadcastNameView| !#[trigger] broadcast_name_matches(s@, v),
{
    let n = s.unicode_len();
    let k = ident_run_end(s, 0);
    if k > 0 && k < n && s.get_char(k) == '.' {
        if let Some((sub, ty, pr)) = parse_service_type(s, k + 1) {
            proof {
                let inst = s@.subrange(0, k as int);
                assert forall|i: int| 0 <= i < inst.len() implies super::grammar::is_ident_char(
                    #[trigger] inst[i],
                ) by {
                    assert(inst[i] == s@[i]);
                }
            }
            return Some((k, sub, ty, pr));
        }
    }
    proof {
        assert forall|v: MdnsBroadcastNameView| !#[trigger] broadcast_name_matches(s@, v) by {
            if broadcast_name_matches(s@, v) {
                let m = v.instance_name.len() as int;
                lemma_ident_is_run(s@, 0, v.instance_name);
                lemma_run_end_unique(s@, 0, k as int, m);
                assert(!service_type_matches(
                    s@.subrange(m + 1, s@.len() as int),
                    v.subdomain,
                    v.type_label,
                    v.service_protocol,
                ));
            }
        }
    }
    None
}

/// A text is an advertised name in at most one way.
pub proof fn lemma_broadcast_name_unique(s: Seq<char>, v1: MdnsBroadcastNameView, v2: MdnsBroadcastNameView)
    requires
        broadcast_name_matches(s, v1),
        broadcast_name_matches(s, v2),
    ensures
        v1 == v2,
{
    let k1 = v1.instance_name.len() as int;
    let k2 = v2.instance_name.len() as int;
    lemma_ident_is_run(s, 0, v1.instance_name);
    lemma_ident_is_run(s, 0, v2.instance_name);
    lemma_run_end_unique(s, 0, k1, k2);
    lemma_service_type_unique(
        s.subrange(k1 + 1, s.len() as int),
        v1.subdomain,
        v1.type_label,
        v1.service_protocol,
        v2.subdomain,
        v2.type_label,
        v2.service_protocol,
    );
}

/// Law: the text written for a well-formed advertised name is read back as
/// that name and as no other.
pub proof fn law_broadcast_name_round_trip(v: MdnsBroadcastNameView)
    requires
        v.well_formed(),
    ensures
        forall|w: MdnsBroadcastNameView| #[trigger] broadcast_name_matches(v.text(), w) <==> w == v,
{
    let s = v.text();
    let k = v.instance_name.len() as int;
    lemma_service_type_text_matches(v.subdomain, v.type_label, v.service_protocol);
    assert(s.subrange(0, k) =~= v.instance_name);
    assert(s.subrange(k + 1, s.len() as int) =~= v.service_type_text());
    assert(broadcast_name_matches(s, v));
    assert forall|w: MdnsBroadcastNameView| #[trigger] broadcast_name_matches(s, w) implies w == v by {
        lemma_broadcast_name_unique(s, v, w);
    }
}

impl MdnsBroadcastName {
    pub fn new(instance_name: &str, type_label: &str, service_protocol: ServiceProtocol) -> (r: Self)
        ensures
            r@ == (MdnsBroadcastNameView {
                instance_name: instance_name@,
                subdomain: None,
                type_label: type_label@,
                service_protocol,
            }),
    {
        MdnsBroadcastName {
            subdomain: None,
            instance_name: instance_name.to_owned(),
            type_label: type_label.to_owned(),
            service_protocol,
        }
    }

    pub fn with_subdomain(self, subdomain: &str) -> (r: Self)
        ensures
            r@ == (MdnsBroadcastNameView { subdomain: Some(subdomain@), ..self@ }),
    {
        MdnsBroadcastName { subdomain: Some(subdomain.to_owned()), ..self }
    }

    pub fn subdomain(&self) -> (r: Option<&str>)
        ensures
            match r {
                Some(x) => self@.subdomain == Some(x@),
                None => self@.subdomain is None,
            },
    {
        match &self.subdomain {
            Some(s) => Some(s.as_str()),
            None => None,
        }
    }

    pub fn instance_name(&self) -> (r: &str)
        ensures
            r@ == self@.instance_name,
    {
        self.instance_name.as_str()
    }

    /// The service type label (the part written after `_`).
    pub fn type_label(&self) -> (r: &str)
        ensures
            r@ == self@.type_label,
    {
        self.type_label.as_str()
    }

    pub fn service_protocol(&self) -> (r: ServiceProtocol)
        ensures
            r == self@.service_protocol,
    {
        self.service_protocol
    }

    /// `[<subdomain>._sub.]_<type>._<protocol>.local.`
    pub fn service_type(&self) -> (r: String)
        ensures
            r@ == self@.service_type_text(),
    {
        service_type_string(&self.subdomain, &self.type_label, self.service_protocol)
    }

    /// The full name, `<instance>.<service type>`.
    pub fn to_string(&self) -> (r: String)
        ensures
            r@ == self@.text(),
    {
        let mut r = self.instance_name.clone();
        proof {
            reveal_strlit(".");
        }
        r.append(".");
        let t = self.service_type();
        r.append(t.as_str());
        proof {
            assert(r@ =~= self@.text());
        }
        r
    }

    /// Reads a name written as `<instance>.[<subdomain>._sub?]_<type>._<tcp|udp>.local.`,
    /// where `?` is any character but a line feed.
    pub fn from_str(s: &str) -> (r: Result<Self, NameParseError>)
        ensures
            match r {
                Ok(name) => broadcast_name_matches(s@, name@),
                Err(_) => forall|v: MdnsBroadcastNameView| !#[trigger] broadcast_name_matches(s@, v),
            },
    {
        match parse_broadcast_parts(s) {
            Some((k, sub, ty, pr)) => {
                let subdomain = match sub {
                    Some(sr) => Some(s.substring_char(sr.0, sr.1).to_owned()),
                    None => None,
                };
                let name = MdnsBroadcastName {
                    instance_name: s.substring_char(0, k).to_owned(),
                    subdomain,
                    type_label: s.substring_char(ty.0, ty.1).to_owned(),
                    service_protocol: pr,
                };
                Ok(name)
            },
            None => Err(NameParseError::PatternMismatch),
        }
    }
}

/// The parts of an mDNS query name.
pub struct MdnsQueryNameView {
    pub subdomain: Option<Seq<char>>,
    pub type_label: Seq<char>,
    pub service_protocol: ServiceProtocol,
}

impl MdnsQueryNameView {
    pub open spec fn well_formed(self) -> bool {
        &&& is_ident(self.type_label)
        &&& (self.subdomain matches Some(x) ==> is_ident(x))
    }

    /// `[<subdomain>._sub.]_<type>._<protocol>.local.`
    pub open spec fn text(self) -> Seq<char> {
        service_type_text(self.subdomain, self.type_label, self.service_protocol)
    }
}

/// `s` is the query name whose parts are `v`.
pub open spec fn query_name_matches(s: Seq<char>, v: MdnsQueryNameView) -> bool {
    service_type_matches(s, v.subdomain, v.type_label, v.service_protocol)
}

/// The name an mDNS query browses for:
/// `[<subdomain>._sub.]_<type>._<protocol>.local.`.
#[derive(Debug, Clone, PartialEq, Eq)]
pub struct MdnsQueryName {
    subdomain: Option<String>,
    type_label: String,
    service_protocol: ServiceProtocol,
}

impl View for MdnsQueryName {
    type V = MdnsQueryNameView;

    closed spec fn view(&self) -> MdnsQueryNameView {
        MdnsQueryNameView {
            subdomain: opt_view(self.subdomain),
            type_label: self.type_label@,
            service_protocol: self.service_protocol,
        }
    }
}

/// A text is a query name in at most one way.
pub proof fn lemma_query_name_unique(s: Seq<char>, v1: MdnsQueryNameView, v2: MdnsQueryNameView)
    requires
        query_name_matches(s, v1),
        query_name_matches(s, v2),
    ensures
        v1 == v2,
{
    lemma_service_type_unique(
        s,
        v1.subdomain,
        v1.type_label,
        v1.service_protocol,
        v2.subdomain,
        v2.type_label,
        v2.service_protocol,
    );
}

/// Law: the text written for a well-formed query name is read back as that
/// name and as no other.
pub proof fn law_query_name_round_trip(v: MdnsQueryNameView)
    requires
        v.well_formed(),
    ensures
        forall|w: MdnsQueryNameView| #[trigger] query_name_matches(v.text(), w) <==> w == v,
{
    lemma_service_type_text_matches(v.subdomain, v.type_label, v.service_protocol);
    assert forall|w: MdnsQueryNameView| #[trigger] query_name_matches(v.text(), w) implies w == v by {
        lemma_query_name_unique(v.text(), v, w);
    }
}

impl MdnsQueryName {
    pub fn new(type_label: &str, service_protocol: ServiceProtocol) -> (r: Self)
        ensures
            r@ == (MdnsQueryNameView { subdomain: None, type_label: type_label@, service_protocol }),
    {
        MdnsQueryName { subdomain: None, type_label: type_label.to_owned(), service_protocol }
    }

    pub fn with_subdomain(self, subdomain: &str) -> (r: Self)
        ensures
            r@ == (MdnsQueryNameView { subdomain: Some(subdomain@), ..self@ }),
    {
        MdnsQueryName { subdomain: Some(subdomain.to_owned()), ..self }
    }

    /// The name as it is browsed for.
    pub fn to_string(&self) -> (r: String)
        ensures
            r@ == self@.text(),
    {
        service_type_string(&self.subdomain, &self.type_label, self.service_protocol)
    }

    /// Reads a name written as `[<subdomain>._sub?]_<type>._<tcp|udp>.local.`,
    /// where `?` is any character but a line feed.
    pub fn from_str(s: &str) -> (r: Result<Self, NameParseError>)
        ensures
            match r {
                Ok(name) => query_name_matches(s@, name@),
                Err(_) => forall|v: MdnsQueryNameView| !#[trigger] query_name_matches(s@, v),
            },
    {
        match parse_service_type(s, 0) {
            Some((sub, ty, pr)) => {
                let subdomain = match sub {
                    Some(sr) => Some(s.substring_char(sr.0, sr.1).to_owned()),
                    None => None,
                };
                proof {
                    assert(s@.subrange(0, s@.len() as int) =~= s@);
                }
                Ok(
                    MdnsQueryName {
                        subdomain,
                        type_label: s.substring_char(ty.0, ty.1).to_owned(),
                        service_protocol: pr,
                    },
                )
            },
            None => {
                proof {
                    assert(s@.subrange(0, s@.len() as int) =~= s@);
                }
                Err(NameParseError::PatternMismatch)
            },
        }
    }
}

/// A service record resolved by an mDNS query.
#[verifier::external_type_specification]
#[verifier::external_body]
pub struct ExServiceInfo(ServiceInfo);

/// `mdns_sd::ServiceInfo::clone` (derived); nothing is claimed of the copy.
pub assume_specification[ <ServiceInfo as Clone>::clone ](info: &ServiceInfo) -> ServiceInfo;

/// What an mDNS browse reports.
#[verifier::external_type_specification]
pub struct ExServiceEvent(ServiceEvent);

/// What the announcer reports about its registration.
#[derive(Debug, Clone, PartialEq, Eq)]
pub enum MdnsBroadcastEvent {
    Announce { service_name: String, addresses: String },
    IpAdd(IpAddress),
    IpDel(IpAddress),
    ParseIpAddrError(String),
    Error(String),
    Unregistered,
    RegistrationMissing,
    ShuttingDown,
    ShutDown,
}

/// What the mDNS daemon reports while a service is registered.
#[derive(Debug, Clone, PartialEq, Eq)]
pub enum DaemonNotice {
    Announce(String, String),
    IpAdd(IpAddress),
    IpDel(IpAddress),
    /// An address could not be read.
    ParseIpAddrError(String),
    /// Any other error, with its message.
    ErrorMessage(String),
    /// Anything else.
    Other,
}

/// The event the announcer passes on for a daemon report; reports of other
/// kinds are not passed on.
pub fn broadcast_event_for(notice: DaemonNotice) -> (r: Option<MdnsBroadcastEvent>)
    ensures
        r == match notice {
            DaemonNotice::Announce(s, a) => Some(
                MdnsBroadcastEvent::Announce { service_name: s, addresses: a },
            ),
            DaemonNotice::IpAdd(a) => Some(MdnsBroadcastEvent::IpAdd(a)),
            DaemonNotice::IpDel(a) => Some(MdnsBroadcastEvent::IpDel(a)),
            DaemonNotice::ParseIpAddrError(e) => Some(MdnsBroadcastEvent::ParseIpAddrError(e)),
            DaemonNotice::ErrorMessage(e) => Some(MdnsBroadcastEvent::Error(e)),
            DaemonNotice::Other => None,
        },
{
    match notice {
        DaemonNotice::Announce(service_name, addresses) => Some(
            MdnsBroadcastEvent::Announce { service_name, addresses },
        ),
        DaemonNotice::IpAdd(addr) => Some(MdnsBroadcastEvent::IpAdd(addr)),
        DaemonNotice::IpDel(addr) => Some(MdnsBroadcastEvent::IpDel(addr)),
        DaemonNotice::ParseIpAddrError(err) => Some(MdnsBroadcastEvent::ParseIpAddrError(err)),
        DaemonNotice::ErrorMessage(err) => Some(MdnsBroadcastEvent::Error(err)),
        DaemonNotice::Other => None,
    }
}

/// The event reported once a registration is withdrawn: withdrawn, or there
/// was none to withdraw.
pub fn unregister_event(found: bool) -> (r: MdnsBroadcastEvent)
    ensures
        r == if found { MdnsBroadcastEvent::Unregistered } else { MdnsBroadcastEvent::RegistrationMissing },
{
    if found {
        MdnsBroadcastEvent::Unregistered
    } else {
        MdnsBroadcastEvent::RegistrationMissing
    }
}

/// The state the daemon reports while it shuts down.
#[derive(Debug, Clone, Copy, PartialEq, Eq, Structural)]
pub enum DaemonState {
    Running,
    Shutdown,
    Other,
}

/// The event reported for a state of a daemon that is shutting down.
pub fn shutdown_event(state: DaemonState) -> (r: Option<MdnsBroadcastEvent>)
    ensures
        r == match state {
            DaemonState::Running => Some(MdnsBroadcastEvent::ShuttingDown),
            DaemonState::Shutdown => Some(MdnsBroadcastEvent::ShutDown),
            DaemonState::Other => None,
        },
{
    match state {
        DaemonState::Running => Some(MdnsBroadcastEvent::ShuttingDown),
        DaemonState::Shutdown => Some(MdnsBroadcastEvent::ShutDown),
        DaemonState::Other => None,
    }
}

/// What a query reports about the services it finds.
#[derive(Debug, Clone)]
pub enum MdnsReceiverEvent {
    SearchStarted(String),
    ServiceFound { service_type: String, full_name: String },
    ServiceResolved(ServiceInfo),
    ServiceRemoved { service_type: String, full_name: String },
    SearchStopped(String),
    ShuttingDown,
    ShutDown,
}

/// The event a query passes on for each browse report: each report as it is.
pub fn receiver_event_for(event: ServiceEvent) -> (r: MdnsReceiverEvent)
    ensures
        r == match event {
            ServiceEvent::SearchStarted(t) => MdnsReceiverEvent::SearchStarted(t),
            ServiceEvent::ServiceFound(t, n) => MdnsReceiverEvent::ServiceFound {
                service_type: t,
                full_name: n,
            },
            ServiceEvent::ServiceResolved(info) => MdnsReceiverEvent::ServiceResolved(info),
            ServiceEvent::ServiceRemoved(t, n) => MdnsReceiverEvent::ServiceRemoved {
                service_type: t,
                full_name: n,
            },
            ServiceEvent::SearchStopped(t) => MdnsReceiverEvent::SearchStopped(t),
        },
{
    match event {
        ServiceEvent::SearchStarted(service_type) => MdnsReceiverEvent::SearchStarted(service_type),
        ServiceEvent::ServiceFound(service_type, full_name) => MdnsReceiverEvent::ServiceFound {
            service_type,
            full_name,
        },
        ServiceEvent::ServiceResolved(info) => MdnsReceiverEvent::ServiceResolved(info),
        ServiceEvent::ServiceRemoved(service_type, full_name) => MdnsReceiverEvent::ServiceRemoved {
            service_type,
            full_name,
        },
        ServiceEvent::SearchStopped(service_type) => MdnsReceiverEvent::SearchStopped(service_type),
    }
}

/// The event a query reports for a state of a daemon that is shutting down.
pub fn query_shutdown_event(state: DaemonState) -> (r: Option<MdnsReceiverEvent>)
    ensures
        r == match state {
            DaemonState::Running => Some(MdnsReceiverEvent::ShuttingDown),
            DaemonState::Shutdown => Some(MdnsReceiverEvent::ShutDown),
            DaemonState::Other => None,
        },
{
    match state {
        DaemonState::Running => Some(MdnsReceiverEvent::ShuttingDown),
        DaemonState::Shutdown => Some(MdnsReceiverEvent::ShutDown),
        DaemonState::Other => None,
    }
}

/// Which network interfaces the daemon uses.
#[derive(Debug, Clone, PartialEq, Eq)]
pub enum InterfaceSelection {
    /// Only the interface with this name.
    Only(String),
    /// Every interface.
    All,
}

/// The interfaces to use: only the default interface when there is one,
/// every interface otherwise.
pub fn interface_selection(default_interface: Option<String>) -> (r: InterfaceSelection)
    ensures
        r == match default_interface {
            Some(name) => InterfaceSelection::Only(name),
            None => InterfaceSelection::All,
        },
{
    match default_interface {
        Some(name) => InterfaceSelection::Only(name),
        None => InterfaceSelection::All,
    }
}

/// The host name a service is registered under: `<hostname>.local.`.
pub fn mdns_host_name(hostname: &str) -> (r: String)
    ensures
        r@ == hostname@ + ".local."@,
{
    let mut r = hostname.to_owned();
    r.append(".local.");
    r
}

} // verus!
