use daemon_slayer::provider::{first_handled, CommandOutput};
use daemon_slayer::console::{
    console_step, log_line_text, status_label, status_needs_refresh, ConsoleAction, ConsoleInput,
    ConsoleState, LabelColor, ServiceStatus,
};
use daemon_slayer::network::addr::{InterfaceAddress, IpAddress};
use daemon_slayer::network::cli::{
    broadcast_info_output, mdns_test_output, mdns_test_resolved, BroadcastInfoOutput, RouteFacts,
};
use daemon_slayer::network::discovery::udp_broadcast_addresses;
use daemon_slayer::network::mdns::{DaemonNotice, DaemonState, MdnsBroadcastEvent, MdnsReceiverEvent};
use daemon_slayer::network::mdns_loop::{
    broadcaster_step, query_step, BroadcasterCommand, BroadcasterInput, BroadcasterPhase, QueryCommand,
    QueryInput, QueryPhase,
};
use daemon_slayer::notify::{notifier_step, NotifierCommand, NotifierInput, NotifierPhase};
use daemon_slayer::process::tree::process_tree;
use daemon_slayer::server::socket_activation::to_hash_map;
use daemon_slayer::signals::{forwarded_signal_name, signal_step, ListenerState};
use std::collections::HashMap;

#[test]
fn broadcast_info_for_each_lookup_outcome() {
    let err: Result<Option<RouteFacts>, String> = Err("no netlink".to_owned());
    assert_eq!(broadcast_info_output(err), Err("no netlink".to_owned()));
    let none: Result<Option<RouteFacts>, String> = Ok(None);
    assert_eq!(
        broadcast_info_output(none),
        Ok(BroadcastInfoOutput::NoRoute("Default route not found".to_owned()))
    );
    let facts = RouteFacts {
        default_ip: Some("192.168.1.5".to_owned()),
        default_interface: Some("eth0".to_owned()),
        destination: "0.0.0.0".to_owned(),
        gateway: Some("192.168.1.1".to_owned()),
    };
    let found: Result<Option<RouteFacts>, String> = Ok(Some(facts));
    assert_eq!(
        broadcast_info_output(found),
        Ok(BroadcastInfoOutput::Report(vec![
            ("Default IP".to_owned(), "192.168.1.5".to_owned()),
            ("Default Interface".to_owned(), "eth0".to_owned()),
            ("Destination".to_owned(), "0.0.0.0".to_owned()),
            ("Gateway".to_owned(), "192.168.1.1".to_owned()),
        ]))
    );
    let bare = RouteFacts {
        default_ip: None,
        default_interface: None,
        destination: "::".to_owned(),
        gateway: None,
    };
    let found: Result<Option<RouteFacts>, String> = Ok(Some(bare));
    assert_eq!(
        broadcast_info_output(found),
        Ok(BroadcastInfoOutput::Report(vec![("Destination".to_owned(), "::".to_owned())]))
    );
}

#[test]
fn mdns_test_verdict() {
    let unresolved = vec![
        MdnsReceiverEvent::SearchStarted("_servicetest._tcp.local.".to_owned()),
        MdnsReceiverEvent::ServiceFound {
            service_type: "_servicetest._tcp.local.".to_owned(),
            full_name: "test._servicetest._tcp.local.".to_owned(),
        },
    ];
    assert!(!mdns_test_resolved(&unresolved));
    assert_eq!(mdns_test_output(&unresolved), "error - service not resolved\n");
    assert!(!mdns_test_resolved(&vec![]));
    let info = mdns_sd::ServiceInfo::new(
        "_servicetest._tcp.local.",
        "test",
        "host.local.",
        "192.168.1.5",
        4321,
        HashMap::<String, String>::new(),
    )
    .unwrap();
    let mut resolved = unresolved;
    resolved.push(MdnsReceiverEvent::ServiceResolved(info));
    assert!(mdns_test_resolved(&resolved));
    assert_eq!(mdns_test_output(&resolved), "success - service resolved\n");
}

#[test]
fn groups_only_names_present() {
    assert!(to_hash_map::<u8>(vec![]).is_empty());
    let groups = to_hash_map(vec![("a".to_owned(), 1), ("a".to_owned(), 2)]);
    assert_eq!(groups, vec![("a".to_owned(), vec![1, 2])]);
}

#[test]
fn console_logs_newest_first_and_quits() {
    let mut state = ConsoleState::new();
    assert_eq!(console_step(&mut state, ConsoleInput::LogLine("one".to_owned())), ConsoleAction::Continue);
    assert_eq!(console_step(&mut state, ConsoleInput::LogLine("two".to_owned())), ConsoleAction::Continue);
    assert_eq!(state.logs, vec!["two".to_owned(), "one".to_owned()]);
    assert_eq!(console_step(&mut state, ConsoleInput::LogStreamClosed), ConsoleAction::Continue);
    assert!(!state.polls_logs());
    console_step(&mut state, ConsoleInput::LogLine("late".to_owned()));
    assert_eq!(state.logs.len(), 2);
    assert_eq!(console_step(&mut state, ConsoleInput::Key('x')), ConsoleAction::Continue);
    assert_eq!(console_step(&mut state, ConsoleInput::Tick), ConsoleAction::Continue);
    assert_eq!(console_step(&mut state, ConsoleInput::Key('q')), ConsoleAction::Quit);
    assert_eq!(console_step(&mut state, ConsoleInput::TerminalError), ConsoleAction::Quit);
}

#[test]
fn console_texts() {
    assert_eq!(log_line_text("a\nb\n"), "ab");
    assert_eq!(log_line_text(""), "");
    assert_eq!(status_label(ServiceStatus::Started), ("Started", LabelColor::Green));
    assert_eq!(status_label(ServiceStatus::Stopped), ("Stopped", LabelColor::Red));
    assert_eq!(status_label(ServiceStatus::NotInstalled), ("Not Installed", LabelColor::Blue));
    assert!(!status_needs_refresh(1_000_000_000));
    assert!(status_needs_refresh(1_000_000_001));
}

#[test]
fn broadcaster_sequence() {
    let (p, e, c) = broadcaster_step(
        BroadcasterPhase::Running,
        BroadcasterInput::Notice(DaemonNotice::IpAdd(IpAddress::V4(1))),
    );
    assert_eq!((p, e, c), (BroadcasterPhase::Running, Some(MdnsBroadcastEvent::IpAdd(IpAddress::V4(1))), BroadcasterCommand::Wait));
    assert_eq!(
        broadcaster_step(BroadcasterPhase::Running, BroadcasterInput::RouteChanged),
        (BroadcasterPhase::Running, None, BroadcasterCommand::Reregister)
    );
    assert_eq!(
        broadcaster_step(BroadcasterPhase::Running, BroadcasterInput::Cancelled),
        (BroadcasterPhase::Draining, None, BroadcasterCommand::Wait)
    );
    assert_eq!(
        broadcaster_step(BroadcasterPhase::Draining, BroadcasterInput::MonitorEnded),
        (BroadcasterPhase::Unregistering, None, BroadcasterCommand::Unregister)
    );
    assert_eq!(
        broadcaster_step(BroadcasterPhase::Unregistering, BroadcasterInput::UnregisterStatus(false)),
        (BroadcasterPhase::Unregistering, Some(MdnsBroadcastEvent::RegistrationMissing), BroadcasterCommand::Wait)
    );
    assert_eq!(
        broadcaster_step(BroadcasterPhase::Unregistering, BroadcasterInput::UnregisterEnded),
        (BroadcasterPhase::ShuttingDown, None, BroadcasterCommand::Shutdown)
    );
    assert_eq!(
        broadcaster_step(BroadcasterPhase::ShuttingDown, BroadcasterInput::DaemonStatus(DaemonState::Shutdown)),
        (BroadcasterPhase::ShuttingDown, Some(MdnsBroadcastEvent::ShutDown), BroadcasterCommand::Wait)
    );
    assert_eq!(
        broadcaster_step(BroadcasterPhase::ShuttingDown, BroadcasterInput::ShutdownEnded),
        (BroadcasterPhase::Done, None, BroadcasterCommand::Finish)
    );
    assert_eq!(
        broadcaster_step(BroadcasterPhase::Done, BroadcasterInput::Notice(DaemonNotice::Other)),
        (BroadcasterPhase::Done, None, BroadcasterCommand::Finish)
    );
}

#[test]
fn query_sequence() {
    let (p, e, c) = query_step(QueryPhase::Browsing, QueryInput::Cancelled);
    assert!(p == QueryPhase::ShuttingDown && e.is_none() && c == QueryCommand::Shutdown);
    let (p, e, c) = query_step(QueryPhase::ShuttingDown, QueryInput::DaemonStatus(DaemonState::Running));
    assert!(p == QueryPhase::ShuttingDown && matches!(e, Some(MdnsReceiverEvent::ShuttingDown)) && c == QueryCommand::Wait);
    let (p, e, c) = query_step(QueryPhase::ShuttingDown, QueryInput::ShutdownEnded);
    assert!(p == QueryPhase::Done && e.is_none() && c == QueryCommand::Finish);
    let (p, _, c) = query_step(QueryPhase::Browsing, QueryInput::RouteChanged);
    assert!(p == QueryPhase::Browsing && c == QueryCommand::SelectInterfaces);
}

#[test]
fn signal_listener_stops_at_termination() {
    assert_eq!(forwarded_signal_name(None), "unknown");
    assert_eq!(
        signal_step(ListenerState::Listening, "SIGHUP"),
        (ListenerState::Listening, Some("SIGHUP".to_owned()), false)
    );
    assert_eq!(
        signal_step(ListenerState::Listening, "SIGTERM"),
        (ListenerState::Stopped, Some("SIGTERM".to_owned()), true)
    );
    assert_eq!(signal_step(ListenerState::Stopped, "SIGHUP"), (ListenerState::Stopped, None, false));
}

#[test]
fn notifier_lingers_once_with_timeout() {
    assert_eq!(
        notifier_step(NotifierPhase::Running, false, NotifierInput::Event(3)),
        (NotifierPhase::Running, Some(3), NotifierCommand::Wait)
    );
    assert_eq!(
        notifier_step(NotifierPhase::Running, false, NotifierInput::<u8>::Stopped),
        (NotifierPhase::Done, None, NotifierCommand::Finish)
    );
    assert_eq!(
        notifier_step(NotifierPhase::Running, true, NotifierInput::<u8>::Stopped),
        (NotifierPhase::Lingering, None, NotifierCommand::WaitWithTimeout)
    );
    assert_eq!(
        notifier_step(NotifierPhase::Lingering, true, NotifierInput::Event(4)),
        (NotifierPhase::Done, Some(4), NotifierCommand::Finish)
    );
}

#[test]
fn udp_addresses() {
    let interfaces = vec![
        InterfaceAddress::V4 { ip: 10, netmask: 0, broadcast: None },
        InterfaceAddress::V6 { ip: 20, netmask: 0, broadcast: None },
    ];
    assert_eq!(udp_broadcast_addresses(Some(IpAddress::V4(7)), &interfaces), vec![IpAddress::V4(7)]);
    assert_eq!(
        udp_broadcast_addresses(None, &interfaces),
        vec![IpAddress::V4(10), IpAddress::V6(20)]
    );
}

#[test]
fn process_tree_follows_parents() {
    let table = vec![(1, None), (2, Some(1)), (3, Some(2)), (4, Some(1)), (5, Some(9))];
    let tree = process_tree(&table, 1);
    assert_eq!(tree.pid, 1);
    let kids: Vec<u32> = tree.children.iter().map(|c| c.pid).collect();
    assert_eq!(kids, vec![2, 4]);
    assert_eq!(tree.children[0].children.len(), 1);
    assert_eq!(tree.children[0].children[0].pid, 3);
    assert!(tree.children[1].children.is_empty());
}

#[test]
fn first_handled_answer_wins() {
    assert_eq!(first_handled(&vec![]), None);
    assert_eq!(first_handled(&vec![CommandOutput::Unhandled, CommandOutput::Unhandled]), None);
    assert_eq!(
        first_handled(&vec![
            CommandOutput::Unhandled,
            CommandOutput::Handled(None),
            CommandOutput::Handled(Some("x".to_owned())),
        ]),
        Some(1)
    );
}
