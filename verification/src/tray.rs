//! The tray menu of a service: the label of its start/stop item and what a
//! click on the menu does.
use vstd::prelude::*;

verus! {

/// The state of the service, as the service manager reports it.
#[derive(Debug, Clone, Copy, PartialEq, Eq, Structural)]
pub enum ServiceState {
    Started,
    Stopped,
    NotInstalled,
}

/// The label of the start/stop item: `Stop` while the service runs,
/// `Start` otherwise.
pub fn get_start_stop_text(state: &ServiceState) -> (r: &'static str)
    ensures
        r@ == if *state == ServiceState::Started { "Stop"@ } else { "Start"@ },
{
    if *state == ServiceState::Started {
        "Stop"
    } else {
        "Start"
    }
}

/// The menu items.
#[derive(Debug, Clone, Copy, PartialEq, Eq, Structural)]
pub enum MenuItemKind {
    StartStop,
    Restart,
    Quit,
    Other,
}

/// A request to the service manager.
#[derive(Debug, Clone, Copy, PartialEq, Eq, Structural)]
pub enum TrayCommand {
    Start,
    Stop,
    Restart,
}

/// Whether the tray keeps running.
#[derive(Debug, Clone, Copy, PartialEq, Eq, Structural)]
pub enum TrayFlow {
    Poll,
    Exit,
}

/// What a click on a menu item does: the start/stop item stops a running
/// service and starts it otherwise, restart restarts, quit leaves the tray.
pub fn handle_menu_event(item: MenuItemKind, current_state: ServiceState) -> (r: (Option<TrayCommand>, TrayFlow))
    ensures
        r == match item {
            MenuItemKind::StartStop => (
                Some(
                    if current_state == ServiceState::Started {
                        TrayCommand::Stop
                    } else {
                        TrayCommand::Start
                    },
                ),
                TrayFlow::Poll,
            ),
            MenuItemKind::Restart => (Some(TrayCommand::Restart), TrayFlow::Poll),
            MenuItemKind::Quit => (None, TrayFlow::Exit),
            MenuItemKind::Other => (None, TrayFlow::Poll),
        },
{
    match item {
        MenuItemKind::StartStop => {
            if current_state == ServiceState::Started {
                (Some(TrayCommand::Stop), TrayFlow::Poll)
            } else {
                (Some(TrayCommand::Start), TrayFlow::Poll)
            }
        },
        MenuItemKind::Restart => (Some(TrayCommand::Restart), TrayFlow::Poll),
        MenuItemKind::Quit => (None, TrayFlow::Exit),
        MenuItemKind::Other => (None, TrayFlow::Poll),
    }
}

} // verus!
