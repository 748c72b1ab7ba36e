pub mod addr;
pub mod cli;
pub mod discovery;
pub mod grammar;
pub mod mdns;
pub mod mdns_broadcast;
pub mod mdns_loop;
pub mod names;
pub mod service_type;

use std::collections::HashMap;

use vstd::prelude::*;


verus! {

/// Transport protocol of an advertised service.
#[derive(Debug, Clone, Copy, PartialEq, Eq, Structural, Default)]
pub enum ServiceProtocol {
    #[default]
    Tcp,
    Udp,
}

/// The text of a protocol, as it appears in service names.
pub open spec fn protocol_text(p: ServiceProtocol) -> Seq<char> {
    match p {
        ServiceProtocol::Tcp => seq!['t', 'c', 'p'],
        ServiceProtocol::Udp => seq!['u', 'd', 'p'],
    }
}

impl ServiceProtocol {
    /// The lowercase name of the protocol (`tcp` or `udp`).
    pub fn to_string(&self) -> (s: String)
        ensures
            s@ == protocol_text(*self),
    {
        match self {
            ServiceProtocol::Tcp => {
                let s = "tcp";
                proof {
                    reveal_strlit("tcp");
                }
                s.to_owned()
            },
            ServiceProtocol::Udp => {
                let s = "udp";
                proof {
                    reveal_strlit("udp");
                }
                s.to_owned()
            },
        }
    }
}

impl ServiceProtocol {
    /// Reads `tcp` or `udp`.
    pub fn from_str(s: &str) -> (r: Result<ServiceProtocol, NameParseError>)
        ensures
            match r {
                Ok(p) => s@ == protocol_text(p),
                Err(_) => s@ != protocol_text(ServiceProtocol::Tcp) && s@ != protocol_text(
                    ServiceProtocol::Udp,
                ),
            },
    {
        let tcp = "tcp";
        let udp = "udp";
        proof {
            reveal_strlit("tcp");
            reveal_strlit("udp");
            assert(tcp@ =~= protocol_text(ServiceProtocol::Tcp));
            assert(udp@ =~= protocol_text(ServiceProtocol::Udp));
        }
        if s.unicode_len() == 3 && grammar::text_at(s, 0, tcp) {
            proof {
                assert(s@ =~= s@.subrange(0, 3));
            }
            Ok(ServiceProtocol::Tcp)
        } else if s.unicode_len() == 3 && grammar::text_at(s, 0, udp) {
            proof {
                assert(s@ =~= s@.subrange(0, 3));
            }
            Ok(ServiceProtocol::Udp)
        } else {
            proof {
                if s@ == protocol_text(ServiceProtocol::Tcp) {
                    assert(s@ =~= s@.subrange(0, 3));
                }
                if s@ == protocol_text(ServiceProtocol::Udp) {
                    assert(s@ =~= s@.subrange(0, 3));
                }
            }
            Err(NameParseError::PatternMismatch)
        }
    }
}

/// Law: a protocol's written name reads back as that protocol.
pub proof fn law_protocol_round_trip(p: ServiceProtocol, q: ServiceProtocol)
    ensures
        protocol_text(p) == protocol_text(q) <==> p == q,
{
    if protocol_text(p) == protocol_text(q) {
        assert(protocol_text(p)[0] == protocol_text(q)[0]);
    }
}

/// Key/value data that a service announces along with its name.
pub trait ServiceMetadata: Sized {
    fn metadata(&self) -> HashMap<String, String>;

    fn from_metadata(metadata: HashMap<String, String>) -> Self;
}

impl ServiceMetadata for HashMap<String, String> {
    /// A map announces itself.
    fn metadata(&self) -> (r: HashMap<String, String>)
        ensures
            r@ == self@,
    {
        self.clone()
    }

    fn from_metadata(metadata: HashMap<String, String>) -> (r: Self)
        ensures
            r@ == metadata@,
    {
        metadata
    }
}

impl ServiceMetadata for Option<HashMap<String, String>> {
    /// An optional map announces nothing.
    fn metadata(&self) -> (r: HashMap<String, String>)
        ensures
            r@ == Map::<String, String>::empty(),
    {
        HashMap::new()
    }

    fn from_metadata(metadata: HashMap<String, String>) -> (r: Self)
        ensures
            r == Some(metadata),
    {
        Some(metadata)
    }
}

/// A text that does not have the shape a name requires.
#[derive(Debug, Clone, Copy, PartialEq, Eq, Structural)]
pub enum NameParseError {
    PatternMismatch,
}

} // verus!
