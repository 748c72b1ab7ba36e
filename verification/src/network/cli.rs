//! The `network` command: what it does once the arguments are read.
use vstd::prelude::*;

use crate::text::opt_view;

use crate::network::mdns::MdnsReceiverEvent;
use crate::provider::{CommandActionType, CommandMatch};

verus! {

/// The `network` subcommands.
#[derive(Debug, Clone, Copy, PartialEq, Eq, Structural)]
pub enum NetworkSubcommand {
    /// Show network routing info
    BroadcastInfo,
    /// Test mDNS send/receive
    MdnsTest,
}

/// Provides the `network` command.
#[derive(Debug, Clone, Copy, PartialEq, Eq, Structural, Default)]
pub struct NetworkCliProvider {
    matched_args: Option<NetworkSubcommand>,
}

/// What the provider does when asked to handle its input.
#[derive(Debug, Clone, Copy, PartialEq, Eq, Structural)]
pub enum NetworkStep {
    /// No `network` command was matched.
    Unhandled,
    /// Print the default route and interface.
    ShowBroadcastInfo,
    /// Announce a test service and wait for it to be resolved.
    RunMdnsTest,
}

impl NetworkCliProvider {
    pub fn new() -> (r: Self)
        ensures
            r.matched() is None,
    {
        NetworkCliProvider { matched_args: None }
    }

    pub closed spec fn matched(self) -> Option<NetworkSubcommand> {
        self.matched_args
    }

    /// Records the command read from the arguments, if it is a `network`
    /// command, and reports the match.
    pub fn matches(&mut self, command: Option<NetworkSubcommand>) -> (r: Option<CommandMatch>)
        ensures
            match command {
                Some(c) => {
                    &&& final(self).matched() == Some(c)
                    &&& r == Some(CommandMatch { action_type: CommandActionType::Other, action: None })
                },
                None => r is None && *final(self) == *old(self),
            },
    {
        match command {
            Some(c) => {
                self.matched_args = Some(c);
                Some(CommandMatch { action_type: CommandActionType::Other, action: None })
            },
            None => None,
        }
    }

    /// What handling the input amounts to.
    pub fn handle_input(&self) -> (r: NetworkStep)
        ensures
            r == match self.matched() {
                None => NetworkStep::Unhandled,
                Some(NetworkSubcommand::BroadcastInfo) => NetworkStep::ShowBroadcastInfo,
                Some(NetworkSubcommand::MdnsTest) => NetworkStep::RunMdnsTest,
            },
    {
        match self.matched_args {
            None => NetworkStep::Unhandled,
            Some(NetworkSubcommand::BroadcastInfo) => NetworkStep::ShowBroadcastInfo,
            Some(NetworkSubcommand::MdnsTest) => NetworkStep::RunMdnsTest,
        }
    }
}

/// The result line of the mDNS test.
pub fn mdns_test_message(service_resolved: bool) -> (r: &'static str)
    ensures
        r@ == if service_resolved {
            "success - service resolved\n"@
        } else {
            "error - service not resolved\n"@
        },
{
    if service_resolved {
        "success - service resolved\n"
    } else {
        "error - service not resolved\n"
    }
}

/// The message printed when there is no default route.
pub fn no_route_message() -> (r: &'static str)
    ensures
        r@ == "Default route not found"@,
{
    "Default route not found"
}

/// What the default route and the interface on its network are, each address
/// already written as text.
#[derive(Debug, Clone, PartialEq, Eq)]
pub struct RouteFacts {
    /// The address of the interface on the route's network, if one was found.
    pub default_ip: Option<String>,
    /// The name of that interface.
    pub default_interface: Option<String>,
    /// The route's destination.
    pub destination: String,
    /// The route's gateway, if it has one.
    pub gateway: Option<String>,
}

/// A labelled line that is only there when there is a value for it.
pub open spec fn optional_line(label: Seq<char>, value: Option<Seq<char>>) -> Seq<(Seq<char>, Seq<char>)> {
    match value {
        Some(v) => seq![(label, v)],
        None => Seq::empty(),
    }
}

/// The report on the default route: `Default IP` and `Default Interface`
/// when known, `Destination`, and `Gateway` when there is one, in that order.
pub open spec fn route_report(f: RouteFacts) -> Seq<(Seq<char>, Seq<char>)> {
    optional_line("Default IP"@, opt_view(f.default_ip)) + optional_line(
        "Default Interface"@,
        opt_view(f.default_interface),
    ) + seq![("Destination"@, f.destination@)] + optional_line("Gateway"@, opt_view(f.gateway))
}

pub open spec fn lines_view(lines: Seq<(String, String)>) -> Seq<(Seq<char>, Seq<char>)> {
    lines.map_values(|p: (String, String)| (p.0@, p.1@))
}

/// What the broadcast-info command prints.
#[derive(Debug, Clone, PartialEq, Eq)]
pub enum BroadcastInfoOutput {
    /// There is no default route; this message says so.
    NoRoute(String),
    /// The labelled lines of the route report, to be laid out as a table.
    Report(Vec<(String, String)>),
}

fn push_optional_line(lines: &mut Vec<(String, String)>, label: &str, value: Option<String>)
    ensures
        lines_view(final(lines)@) == lines_view(old(lines)@) + optional_line(label@, opt_view(value)),
{
    let ghost before = lines_view(lines@);
    match value {
        Some(v) => {
            lines.push((label.to_owned(), v));
            assert(lines_view(lines@) =~= before + optional_line(label@, opt_view(value)));
        },
        None => {
            assert(lines_view(lines@) =~= before + optional_line(label@, opt_view(value)));
        },
    }
}

/// The broadcast-info command's result for the outcome of looking up the
/// default route: a lookup error is passed on, no route gives the
/// not-found message, and a route gives its report.
pub fn broadcast_info_output<E>(lookup: Result<Option<RouteFacts>, E>) -> (r: Result<BroadcastInfoOutput, E>)
    ensures
        match lookup {
            Err(e) => r == Err::<BroadcastInfoOutput, E>(e),
            Ok(None) => r matches Ok(BroadcastInfoOutput::NoRoute(m)) && m@ == "Default route not found"@,
            Ok(Some(f)) => r matches Ok(BroadcastInfoOutput::Report(lines)) && lines_view(lines@) == route_report(f),
        },
{
    match lookup {
        Err(e) => Err(e),
        Ok(None) => Ok(BroadcastInfoOutput::NoRoute(no_route_message().to_owned())),
        Ok(Some(f)) => {
            let ghost facts = f;
            let mut lines: Vec<(String, String)> = Vec::new();
            assert(lines_view(lines@) =~= Seq::<(Seq<char>, Seq<char>)>::empty());
            push_optional_line(&mut lines, "Default IP", f.default_ip);
            push_optional_line(&mut lines, "Default Interface", f.default_interface);
            let ghost mid = lines_view(lines@);
            lines.push(("Destination".to_owned(), f.destination));
            assert(lines_view(lines@) =~= mid + seq![("Destination"@, facts.destination@)]);
            push_optional_line(&mut lines, "Gateway", f.gateway);
            assert(lines_view(lines@) =~= route_report(facts));
            Ok(BroadcastInfoOutput::Report(lines))
        },
    }
}

/// Whether the mDNS test resolved its service: some event of the query is a
/// resolved service.
pub fn mdns_test_resolved(events: &Vec<MdnsReceiverEvent>) -> (r: bool)
    ensures
        r == exists|i: int| 0 <= i < events@.len() && #[trigger] events@[i] is ServiceResolved,
{
    let mut i: usize = 0;
    while i < events.len()
        invariant
            i <= events@.len(),
            forall|j: int| 0 <= j < i ==> !(#[trigger] events@[j] is ServiceResolved),
        decreases events@.len() - i,
    {
        if let MdnsReceiverEvent::ServiceResolved(_) = &events[i] {
            return true;
        }
        i = i + 1;
    }
    false
}

/// The mDNS test's result line for the events its query reported.
pub fn mdns_test_output(events: &Vec<MdnsReceiverEvent>) -> (r: &'static str)
    ensures
        r@ == if exists|i: int| 0 <= i < events@.len() && #[trigger] events@[i] is ServiceResolved {
            "success - service resolved\n"@
        } else {
            "error - service not resolved\n"@
        },
{
    mdns_test_message(mdns_test_resolved(events))
}

} // verus!
