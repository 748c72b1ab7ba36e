use daemon_slayer::network::cli::{
    mdns_test_message, no_route_message, NetworkCliProvider, NetworkStep, NetworkSubcommand,
};
use daemon_slayer::network::mdns::{
    broadcast_event_for, interface_selection, mdns_host_name, query_shutdown_event,
    shutdown_event, unregister_event, DaemonNotice, DaemonState, InterfaceSelection,
    MdnsBroadcastEvent, MdnsReceiverEvent,
};
use daemon_slayer::network::addr::IpAddress;
use daemon_slayer::provider::{CommandActionType, CommandMatch};
use daemon_slayer::signals::{console_event_response, is_termination_signal, ConsoleEvent};
use daemon_slayer::text::append_decimal;
use daemon_slayer::tray::{
    get_start_stop_text, handle_menu_event, MenuItemKind, ServiceState, TrayCommand, TrayFlow,
};

#[test]
fn network_provider() {
    let mut p = NetworkCliProvider::new();
    assert_eq!(p.handle_input(), NetworkStep::Unhandled);
    assert_eq!(p.matches(None), None);
    assert_eq!(
        p.matches(Some(NetworkSubcommand::MdnsTest)),
        Some(CommandMatch { action_type: CommandActionType::Other, action: None })
    );
    assert_eq!(p.handle_input(), NetworkStep::RunMdnsTest);
    p.matches(Some(NetworkSubcommand::BroadcastInfo));
    assert_eq!(p.handle_input(), NetworkStep::ShowBroadcastInfo);
    assert_eq!(mdns_test_message(true), "success - service resolved\n");
    assert_eq!(mdns_test_message(false), "error - service not resolved\n");
    assert_eq!(no_route_message(), "Default route not found");
}

#[test]
fn mdns_events() {
    assert_eq!(
        broadcast_event_for(DaemonNotice::Announce("n".to_owned(), "a".to_owned())),
        Some(MdnsBroadcastEvent::Announce { service_name: "n".to_owned(), addresses: "a".to_owned() })
    );
    assert_eq!(
        broadcast_event_for(DaemonNotice::IpAdd(IpAddress::V4(1))),
        Some(MdnsBroadcastEvent::IpAdd(IpAddress::V4(1)))
    );
    assert_eq!(
        broadcast_event_for(DaemonNotice::ErrorMessage("m".to_owned())),
        Some(MdnsBroadcastEvent::Error("m".to_owned()))
    );
    assert_eq!(broadcast_event_for(DaemonNotice::Other), None);
    assert_eq!(unregister_event(true), MdnsBroadcastEvent::Unregistered);
    assert_eq!(unregister_event(false), MdnsBroadcastEvent::RegistrationMissing);
    assert_eq!(shutdown_event(DaemonState::Running), Some(MdnsBroadcastEvent::ShuttingDown));
    assert_eq!(shutdown_event(DaemonState::Shutdown), Some(MdnsBroadcastEvent::ShutDown));
    assert_eq!(shutdown_event(DaemonState::Other), None);
    assert!(matches!(
        query_shutdown_event(DaemonState::Shutdown),
        Some(MdnsReceiverEvent::ShutDown)
    ));
    assert!(query_shutdown_event(DaemonState::Other).is_none());
    assert_eq!(interface_selection(Some("eth0".to_owned())), InterfaceSelection::Only("eth0".to_owned()));
    assert_eq!(interface_selection(None), InterfaceSelection::All);
    assert_eq!(mdns_host_name("box"), "box.local.");
}

#[test]
fn mdns_browse_events() {
    let e = daemon_slayer::network::mdns::receiver_event_for(mdns_sd::ServiceEvent::ServiceFound(
        "_t._tcp.local.".to_owned(),
        "i._t._tcp.local.".to_owned(),
    ));
    match e {
        MdnsReceiverEvent::ServiceFound { service_type, full_name } => {
            assert_eq!(service_type, "_t._tcp.local.");
            assert_eq!(full_name, "i._t._tcp.local.");
        }
        _ => panic!("expected ServiceFound"),
    }
    let e = daemon_slayer::network::mdns::receiver_event_for(mdns_sd::ServiceEvent::SearchStopped(
        "_t._tcp.local.".to_owned(),
    ));
    assert!(matches!(e, MdnsReceiverEvent::SearchStopped(s) if s == "_t._tcp.local."));
}

#[test]
fn signals() {
    assert!(is_termination_signal("SIGTERM"));
    assert!(is_termination_signal("SIGINT"));
    assert!(is_termination_signal("SIGQUIT"));
    assert!(!is_termination_signal("SIGHUP"));
    assert!(!is_termination_signal("unknown"));
    assert_eq!(console_event_response(ConsoleEvent::CtrlC), (true, true));
    assert_eq!(console_event_response(ConsoleEvent::CtrlLogoff), (true, true));
    assert_eq!(console_event_response(ConsoleEvent::ChannelSignal), (false, true));
    assert_eq!(console_event_response(ConsoleEvent::Cancelled), (true, false));
}

#[test]
fn tray_menu() {
    assert_eq!(get_start_stop_text(&ServiceState::Started), "Stop");
    assert_eq!(get_start_stop_text(&ServiceState::Stopped), "Start");
    assert_eq!(get_start_stop_text(&ServiceState::NotInstalled), "Start");
    assert_eq!(
        handle_menu_event(MenuItemKind::StartStop, ServiceState::Started),
        (Some(TrayCommand::Stop), TrayFlow::Poll)
    );
    assert_eq!(
        handle_menu_event(MenuItemKind::StartStop, ServiceState::Stopped),
        (Some(TrayCommand::Start), TrayFlow::Poll)
    );
    assert_eq!(
        handle_menu_event(MenuItemKind::Restart, ServiceState::Stopped),
        (Some(TrayCommand::Restart), TrayFlow::Poll)
    );
    assert_eq!(handle_menu_event(MenuItemKind::Quit, ServiceState::Started), (None, TrayFlow::Exit));
    assert_eq!(handle_menu_event(MenuItemKind::Other, ServiceState::Started), (None, TrayFlow::Poll));
}

#[test]
fn decimal_text() {
    for n in [0u64, 7, 10, 99, 100, 4294967295, u64::MAX] {
        let mut s = String::from("x");
        append_decimal(&mut s, n);
        assert_eq!(s, format!("x{n}"));
    }
}
