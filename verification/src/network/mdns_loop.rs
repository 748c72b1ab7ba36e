//! The announcer's and the query's run loops as step functions: from the
//! phase a loop is in and what just happened, the next phase, the event to
//! pass on and what to do next.
use mdns_sd::ServiceEvent;
use vstd::prelude::*;

use super::mdns::{
    broadcast_event_for, query_shutdown_event, receiver_event_for, shutdown_event, unregister_event,
    DaemonNotice, DaemonState, MdnsBroadcastEvent, MdnsReceiverEvent,
};

verus! {

/// Where the announcer is: registered and forwarding the daemon's reports;
/// cancelled and forwarding what the monitor still holds; withdrawing its
/// registration; shutting the daemon down; finished.
#[derive(Debug, Clone, Copy, PartialEq, Eq, Structural)]
pub enum BroadcasterPhase {
    Running,
    Draining,
    Unregistering,
    ShuttingDown,
    Done,
}

/// What happens to the announcer.
#[derive(Debug, Clone, PartialEq, Eq)]
pub enum BroadcasterInput {
    /// The daemon's monitor reported something.
    Notice(DaemonNotice),
    /// The default route changed.
    RouteChanged,
    /// The service was asked to stop.
    Cancelled,
    /// The monitor has nothing more.
    MonitorEnded,
    /// Withdrawing the registration reported whether it was found.
    UnregisterStatus(bool),
    /// The withdrawal has nothing more to report.
    UnregisterEnded,
    /// The daemon reported its state while shutting down.
    DaemonStatus(DaemonState),
    /// The shutdown has nothing more to report.
    ShutdownEnded,
}

/// What the announcer does next.
#[derive(Debug, Clone, Copy, PartialEq, Eq, Structural)]
pub enum BroadcasterCommand {
    /// Wait for the next input.
    Wait,
    /// Withdraw the registration and register again on the new route.
    Reregister,
    /// Withdraw the registration.
    Unregister,
    /// Shut the daemon down.
    Shutdown,
    /// Stop: the loop is over.
    Finish,
}

/// The announcer's step: in every phase but the last the daemon's reports
/// of the phase are passed on; a route change re-registers, cancelling
/// drains the monitor, the monitor's end withdraws the registration, the
/// withdrawal's end shuts the daemon down, and the shutdown's end finishes.
/// Inputs that do not belong to a phase change nothing.
pub open spec fn broadcaster_next(phase: BroadcasterPhase, input: BroadcasterInput) -> (
    BroadcasterPhase,
    Option<MdnsBroadcastEvent>,
    BroadcasterCommand,
) {
    match (phase, input) {
        (BroadcasterPhase::Running, BroadcasterInput::Notice(n)) => (
            BroadcasterPhase::Running,
            broadcast_event_for_spec(n),
            BroadcasterCommand::Wait,
        ),
        (BroadcasterPhase::Running, BroadcasterInput::RouteChanged) => (
            BroadcasterPhase::Running,
            None,
            BroadcasterCommand::Reregister,
        ),
        (BroadcasterPhase::Running, BroadcasterInput::UnregisterStatus(found)) => (
            BroadcasterPhase::Running,
            Some(unregister_event_spec(found)),
            BroadcasterCommand::Wait,
        ),
        (BroadcasterPhase::Running, BroadcasterInput::Cancelled) => (
            BroadcasterPhase::Draining,
            None,
            BroadcasterCommand::Wait,
        ),
        (BroadcasterPhase::Draining, BroadcasterInput::Notice(n)) => (
            BroadcasterPhase::Draining,
            broadcast_event_for_spec(n),
            BroadcasterCommand::Wait,
        ),
        (BroadcasterPhase::Draining, BroadcasterInput::MonitorEnded) => (
            BroadcasterPhase::Unregistering,
            None,
            BroadcasterCommand::Unregister,
        ),
        (BroadcasterPhase::Unregistering, BroadcasterInput::UnregisterStatus(found)) => (
            BroadcasterPhase::Unregistering,
            Some(unregister_event_spec(found)),
            BroadcasterCommand::Wait,
        ),
        (BroadcasterPhase::Unregistering, BroadcasterInput::UnregisterEnded) => (
            BroadcasterPhase::ShuttingDown,
            None,
            BroadcasterCommand::Shutdown,
        ),
        (BroadcasterPhase::ShuttingDown, BroadcasterInput::DaemonStatus(s)) => (
            BroadcasterPhase::ShuttingDown,
            shutdown_event_spec(s),
            BroadcasterCommand::Wait,
        ),
        (BroadcasterPhase::ShuttingDown, BroadcasterInput::ShutdownEnded) => (
            BroadcasterPhase::Done,
            None,
            BroadcasterCommand::Finish,
        ),
        (BroadcasterPhase::Done, _) => (BroadcasterPhase::Done, None, BroadcasterCommand::Finish),
        (p, _) => (p, None, BroadcasterCommand::Wait),
    }
}

pub open spec fn broadcast_event_for_spec(notice: DaemonNotice) -> Option<MdnsBroadcastEvent> {
    match notice {
        DaemonNotice::Announce(s, a) => Some(MdnsBroadcastEvent::Announce { service_name: s, addresses: a }),
        DaemonNotice::IpAdd(a) => Some(MdnsBroadcastEvent::IpAdd(a)),
        DaemonNotice::IpDel(a) => Some(MdnsBroadcastEvent::IpDel(a)),
        DaemonNotice::ParseIpAddrError(e) => Some(MdnsBroadcastEvent::ParseIpAddrError(e)),
        DaemonNotice::ErrorMessage(e) => Some(MdnsBroadcastEvent::Error(e)),
        DaemonNotice::Other => None,
    }
}

pub open spec fn unregister_event_spec(found: bool) -> MdnsBroadcastEvent {
    if found {
        MdnsBroadcastEvent::Unregistered
    } else {
        MdnsBroadcastEvent::RegistrationMissing
    }
}

pub open spec fn shutdown_event_spec(state: DaemonState) -> Option<MdnsBroadcastEvent> {
    match state {
        DaemonState::Running => Some(MdnsBroadcastEvent::ShuttingDown),
        DaemonState::Shutdown => Some(MdnsBroadcastEvent::ShutDown),
        DaemonState::Other => None,
    }
}

/// The announcer's step, as `broadcaster_next` gives it.
pub fn broadcaster_step(phase: BroadcasterPhase, input: BroadcasterInput) -> (r: (
    BroadcasterPhase,
    Option<MdnsBroadcastEvent>,
    BroadcasterCommand,
))
    ensures
        r == broadcaster_next(phase, input),
{
    match (phase, input) {
        (BroadcasterPhase::Running, BroadcasterInput::Notice(n)) => (
            BroadcasterPhase::Running,
            broadcast_event_for(n),
            BroadcasterCommand::Wait,
        ),
        (BroadcasterPhase::Running, BroadcasterInput::RouteChanged) => (
            BroadcasterPhase::Running,
            None,
            BroadcasterCommand::Reregister,
        ),
        (BroadcasterPhase::Running, BroadcasterInput::UnregisterStatus(found)) => (
            BroadcasterPhase::Running,
            Some(unregister_event(found)),
            BroadcasterCommand::Wait,
        ),
        (BroadcasterPhase::Running, BroadcasterInput::Cancelled) => (
            BroadcasterPhase::Draining,
            None,
            BroadcasterCommand::Wait,
        ),
        (BroadcasterPhase::Draining, BroadcasterInput::Notice(n)) => (
            BroadcasterPhase::Draining,
            broadcast_event_for(n),
            BroadcasterCommand::Wait,
        ),
        (BroadcasterPhase::Draining, BroadcasterInput::MonitorEnded) => (
            BroadcasterPhase::Unregistering,
            None,
            BroadcasterCommand::Unregister,
        ),
        (BroadcasterPhase::Unregistering, BroadcasterInput::UnregisterStatus(found)) => (
            BroadcasterPhase::Unregistering,
            Some(unregister_event(found)),
            BroadcasterCommand::Wait,
        ),
        (BroadcasterPhase::Unregistering, BroadcasterInput::UnregisterEnded) => (
            BroadcasterPhase::ShuttingDown,
            None,
            BroadcasterCommand::Shutdown,
        ),
        (BroadcasterPhase::ShuttingDown, BroadcasterInput::DaemonStatus(s)) => (
            BroadcasterPhase::ShuttingDown,
            shutdown_event(s),
            BroadcasterCommand::Wait,
        ),
        (BroadcasterPhase::ShuttingDown, BroadcasterInput::ShutdownEnded) => (
            BroadcasterPhase::Done,
            None,
            BroadcasterCommand::Finish,
        ),
        (BroadcasterPhase::Done, _) => (BroadcasterPhase::Done, None, BroadcasterCommand::Finish),
        (p, _) => (p, None, BroadcasterCommand::Wait),
    }
}

/// The order of the announcer's phases.
pub open spec fn broadcaster_rank(p: BroadcasterPhase) -> int {
    match p {
        BroadcasterPhase::Running => 0,
        BroadcasterPhase::Draining => 1,
        BroadcasterPhase::Unregistering => 2,
        BroadcasterPhase::ShuttingDown => 3,
        BroadcasterPhase::Done => 4,
    }
}

/// Law: the announcer never goes back a phase and moves at most one phase
/// per step; the daemon's monitor reports are only passed on before the
/// registration is withdrawn, withdrawal reports only while registered or
/// withdrawing, shutdown reports only while shutting down, and nothing once
/// finished.
pub proof fn law_broadcaster_order(phase: BroadcasterPhase, input: BroadcasterInput)
    ensures
        ({
            let (next, event, _) = broadcaster_next(phase, input);
            &&& broadcaster_rank(phase) <= broadcaster_rank(next) <= broadcaster_rank(phase) + 1
            &&& (event matches Some(MdnsBroadcastEvent::ShuttingDown) || event matches Some(MdnsBroadcastEvent::ShutDown))
                ==> phase == BroadcasterPhase::ShuttingDown
            &&& (event matches Some(MdnsBroadcastEvent::Unregistered) || event matches Some(MdnsBroadcastEvent::RegistrationMissing))
                ==> (phase == BroadcasterPhase::Running || phase == BroadcasterPhase::Unregistering)
            &&& phase == BroadcasterPhase::Done ==> next == BroadcasterPhase::Done && event is None
        }),
{
}

/// Where the query is: browsing; shutting the daemon down; finished.
#[derive(Debug, Clone, Copy, PartialEq, Eq, Structural)]
pub enum QueryPhase {
    Browsing,
    ShuttingDown,
    Done,
}

/// What happens to the query.
#[derive(Debug)]
pub enum QueryInput {
    /// The browse reported something.
    Browse(ServiceEvent),
    /// The default route changed.
    RouteChanged,
    /// The service was asked to stop.
    Cancelled,
    /// The daemon reported its state while shutting down.
    DaemonStatus(DaemonState),
    /// The shutdown has nothing more to report.
    ShutdownEnded,
}

/// What the query does next.
#[derive(Debug, Clone, Copy, PartialEq, Eq, Structural)]
pub enum QueryCommand {
    Wait,
    /// Pick the interfaces again for the new route.
    SelectInterfaces,
    Shutdown,
    Finish,
}

pub open spec fn receiver_event_spec(event: ServiceEvent) -> MdnsReceiverEvent {
    match event {
        ServiceEvent::SearchStarted(t) => MdnsReceiverEvent::SearchStarted(t),
        ServiceEvent::ServiceFound(t, n) => MdnsReceiverEvent::ServiceFound { service_type: t, full_name: n },
        ServiceEvent::ServiceResolved(info) => MdnsReceiverEvent::ServiceResolved(info),
        ServiceEvent::ServiceRemoved(t, n) => MdnsReceiverEvent::ServiceRemoved { service_type: t, full_name: n },
        ServiceEvent::SearchStopped(t) => MdnsReceiverEvent::SearchStopped(t),
    }
}

pub open spec fn query_shutdown_spec(state: DaemonState) -> Option<MdnsReceiverEvent> {
    match state {
        DaemonState::Running => Some(MdnsReceiverEvent::ShuttingDown),
        DaemonState::Shutdown => Some(MdnsReceiverEvent::ShutDown),
        DaemonState::Other => None,
    }
}

/// The query's step: while browsing every report is passed on and a route
/// change picks the interfaces again; cancelling shuts the daemon down, whose
/// state reports are then passed on until it has nothing more.
pub open spec fn query_next(phase: QueryPhase, input: QueryInput) -> (QueryPhase, Option<MdnsReceiverEvent>, QueryCommand) {
    match (phase, input) {
        (QueryPhase::Browsing, QueryInput::Browse(e)) => (
            QueryPhase::Browsing,
            Some(receiver_event_spec(e)),
            QueryCommand::Wait,
        ),
        (QueryPhase::Browsing, QueryInput::RouteChanged) => (QueryPhase::Browsing, None, QueryCommand::SelectInterfaces),
        (QueryPhase::Browsing, QueryInput::Cancelled) => (QueryPhase::ShuttingDown, None, QueryCommand::Shutdown),
        (QueryPhase::ShuttingDown, QueryInput::DaemonStatus(s)) => (
            QueryPhase::ShuttingDown,
            query_shutdown_spec(s),
            QueryCommand::Wait,
        ),
        (QueryPhase::ShuttingDown, QueryInput::ShutdownEnded) => (QueryPhase::Done, None, QueryCommand::Finish),
        (QueryPhase::Done, _) => (QueryPhase::Done, None, QueryCommand::Finish),
        (p, _) => (p, None, QueryCommand::Wait),
    }
}

/// The query's step, as `query_next` gives it.
pub fn query_step(phase: QueryPhase, input: QueryInput) -> (r: (QueryPhase, Option<MdnsReceiverEvent>, QueryCommand))
    ensures
        r == query_next(phase, input),
{
    match (phase, input) {
        (QueryPhase::Browsing, QueryInput::Browse(e)) => (
            QueryPhase::Browsing,
            Some(receiver_event_for(e)),
            QueryCommand::Wait,
        ),
        (QueryPhase::Browsing, QueryInput::RouteChanged) => (QueryPhase::Browsing, None, QueryCommand::SelectInterfaces),
        (QueryPhase::Browsing, QueryInput::Cancelled) => (QueryPhase::ShuttingDown, None, QueryCommand::Shutdown),
        (QueryPhase::ShuttingDown, QueryInput::DaemonStatus(s)) => (
            QueryPhase::ShuttingDown,
            query_shutdown_event(s),
            QueryCommand::Wait,
        ),
        (QueryPhase::ShuttingDown, QueryInput::ShutdownEnded) => (QueryPhase::Done, None, QueryCommand::Finish),
        (QueryPhase::Done, _) => (QueryPhase::Done, None, QueryCommand::Finish),
        (p, _) => (p, None, QueryCommand::Wait),
    }
}

/// Law: the query passes browse reports on only while browsing, and the
/// shutdown reports only after it was cancelled; it never goes back a phase.
pub proof fn law_query_order(phase: QueryPhase, input: QueryInput)
    ensures
        ({
            let (next, event, _) = query_next(phase, input);
            &&& (phase == QueryPhase::Done ==> next == QueryPhase::Done && event is None)
            &&& (phase == QueryPhase::ShuttingDown ==> next != QueryPhase::Browsing)
            &&& (event matches Some(MdnsReceiverEvent::ShuttingDown) || event matches Some(MdnsReceiverEvent::ShutDown))
                ==> phase == QueryPhase::ShuttingDown
            &&& (event is Some && phase != QueryPhase::ShuttingDown) ==> phase == QueryPhase::Browsing
        }),
{
}

/// Law: while browsing, every browse report is passed on to subscribers as
/// the receiver event of the same kind carrying the same service type, name
/// or details, and the query keeps browsing.
pub proof fn law_query_passes_browse_reports(e: ServiceEvent)
    ensures
        ({
            let (next, event, command) = query_next(QueryPhase::Browsing, QueryInput::Browse(e));
            &&& next == QueryPhase::Browsing
            &&& command == QueryCommand::Wait
            &&& event is Some
            &&& (e matches ServiceEvent::SearchStarted(t) ==> event == Some(MdnsReceiverEvent::SearchStarted(t)))
            &&& (e matches ServiceEvent::ServiceFound(t, n) ==> event == Some(
                MdnsReceiverEvent::ServiceFound { service_type: t, full_name: n },
            ))
            &&& (e matches ServiceEvent::ServiceResolved(info) ==> event == Some(
                MdnsReceiverEvent::ServiceResolved(info),
            ))
            &&& (e matches ServiceEvent::ServiceRemoved(t, n) ==> event == Some(
                MdnsReceiverEvent::ServiceRemoved { service_type: t, full_name: n },
            ))
            &&& (e matches ServiceEvent::SearchStopped(t) ==> event == Some(MdnsReceiverEvent::SearchStopped(t)))
        }),
{
}

/// Law: while registered, the daemon's reports are passed on as the event of
/// the same kind with the same contents, all but the ones that carry nothing
/// to report, and the announcer stays registered.
pub proof fn law_broadcaster_passes_notices(n: DaemonNotice)
    ensures
        ({
            let (next, event, command) = broadcaster_next(BroadcasterPhase::Running, BroadcasterInput::Notice(n));
            &&& next == BroadcasterPhase::Running
            &&& command == BroadcasterCommand::Wait
            &&& (event is None <==> n == DaemonNotice::Other)
            &&& (n matches DaemonNotice::Announce(s, a) ==> event == Some(
                MdnsBroadcastEvent::Announce { service_name: s, addresses: a },
            ))
            &&& (n matches DaemonNotice::IpAdd(a) ==> event == Some(MdnsBroadcastEvent::IpAdd(a)))
            &&& (n matches DaemonNotice::IpDel(a) ==> event == Some(MdnsBroadcastEvent::IpDel(a)))
            &&& (n matches DaemonNotice::ParseIpAddrError(m) ==> event == Some(
                MdnsBroadcastEvent::ParseIpAddrError(m),
            ))
            &&& (n matches DaemonNotice::ErrorMessage(m) ==> event == Some(MdnsBroadcastEvent::Error(m)))
        }),
{
}

} // verus!
