use daemon_slayer::cli::builder::{Builder, CommandType};
use daemon_slayer::cli::commands::Commands;
use daemon_slayer::cli::{
    action_type, client_request_for, command_action_type, matches_command, pid_output, str_equal, Action,
    ActionType, ArgState, ClientRequest, Command, ServiceCommand,
};

const ALL: [ServiceCommand; 13] = [
    ServiceCommand::Install,
    ServiceCommand::Uninstall,
    ServiceCommand::Run,
    ServiceCommand::Direct,
    ServiceCommand::Info,
    ServiceCommand::Start,
    ServiceCommand::Stop,
    ServiceCommand::Restart,
    ServiceCommand::Enable,
    ServiceCommand::Disable,
    ServiceCommand::Pid,
    ServiceCommand::Health,
    ServiceCommand::Console,
];

#[test]
fn service_command_names() {
    let names: Vec<String> = ALL.iter().map(|c| c.to_string()).collect();
    assert_eq!(
        names,
        vec![
            "install", "uninstall", "run", "direct", "info", "start", "stop", "restart", "enable",
            "disable", "pid", "health", "console"
        ]
    );
    assert_eq!(ServiceCommand::Install.as_str(), "install");
    for a in ALL {
        for b in ALL {
            assert_eq!(a.as_str() == b.as_str(), a == b);
        }
    }
}

#[test]
fn default_commands_client_and_server() {
    let commands = Commands::new(true, true);
    assert_eq!(
        commands.get(&ServiceCommand::Install),
        Some(&Command::Subcommand {
            name: "install".to_owned(),
            help_text: "Install the service using the system's service manager".to_owned()
        })
    );
    assert_eq!(
        commands.get(&ServiceCommand::Info),
        Some(&Command::Subcommand {
            name: "info".to_owned(),
            help_text: "Get the service's current status".to_owned()
        })
    );
    assert_eq!(
        commands.get(&ServiceCommand::Console),
        Some(&Command::Subcommand {
            name: "console".to_owned(),
            help_text: "View service console".to_owned()
        })
    );
    assert_eq!(
        commands.get(&ServiceCommand::Run),
        Some(&Command::Subcommand { name: "run".to_owned(), help_text: "".to_owned() })
    );
    assert_eq!(commands.get(&ServiceCommand::Direct), Some(&Command::Default));
    assert_eq!(commands.get(&ServiceCommand::Health), None);
    assert_eq!(commands.iter().len(), 12);
}

#[test]
fn default_commands_by_side() {
    let client = Commands::new(true, false);
    assert_eq!(client.iter().len(), 10);
    assert_eq!(client.get(&ServiceCommand::Run), None);
    let server = Commands::new(false, true);
    assert_eq!(server.iter().len(), 2);
    assert_eq!(server.get(&ServiceCommand::Start), None);
    assert_eq!(Commands::new(false, false).iter().len(), 0);
}

#[test]
fn commands_insert_and_remove() {
    let mut commands = Commands::new(false, false);
    commands.insert(ServiceCommand::Stop, Command::Default);
    assert_eq!(commands.get(&ServiceCommand::Stop), Some(&Command::Default));
    let arg = Command::Arg { short: Some('s'), long: None, help_text: None };
    commands.insert(ServiceCommand::Stop, arg.clone());
    assert_eq!(commands.get(&ServiceCommand::Stop), Some(&arg));
    assert_eq!(commands.iter().len(), 1);
    commands.remove(&ServiceCommand::Stop);
    assert_eq!(commands.get(&ServiceCommand::Stop), None);
}

#[test]
fn run_commands_from_service_args() {
    let mut none = Commands::new(false, false);
    none.add_run_commands(&vec![]);
    assert_eq!(none.get(&ServiceCommand::Run), Some(&Command::Default));
    assert_eq!(
        none.get(&ServiceCommand::Direct),
        Some(&Command::Subcommand {
            name: "direct".to_owned(),
            help_text: "Run the service directly".to_owned()
        })
    );

    let mut long = Commands::new(false, false);
    long.add_run_commands(&vec!["--run".to_owned(), "x".to_owned()]);
    assert_eq!(
        long.get(&ServiceCommand::Run),
        Some(&Command::Arg { short: None, long: Some("--run".to_owned()), help_text: None })
    );
    assert_eq!(long.get(&ServiceCommand::Direct), None);

    let mut short = Commands::new(false, false);
    short.add_run_commands(&vec!["-r".to_owned()]);
    assert_eq!(
        short.get(&ServiceCommand::Run),
        Some(&Command::Arg { short: Some('r'), long: None, help_text: None })
    );

    let mut plain = Commands::new(false, false);
    plain.add_run_commands(&vec!["run".to_owned()]);
    assert_eq!(plain.iter().len(), 0);
}

#[test]
fn matching_commands() {
    let sub = Command::Subcommand { name: "start".to_owned(), help_text: String::new() };
    let given = ArgState { flag_given: false, subcommand: Some("start".to_owned()), args_present: true };
    assert!(matches_command(&given, &sub, "start"));
    assert!(!matches_command(&given, &sub, "stop"));
    let bare = ArgState { flag_given: false, subcommand: None, args_present: false };
    assert!(matches_command(&bare, &Command::Default, "run"));
    assert!(!matches_command(&given, &Command::Default, "run"));
    let flag = Command::Arg { short: Some('r'), long: None, help_text: None };
    let with_flag = ArgState { flag_given: true, subcommand: None, args_present: true };
    assert!(matches_command(&with_flag, &flag, "run"));
    assert!(!matches_command(&bare, &flag, "run"));
    assert!(str_equal("abc", "abc") && !str_equal("abc", "abd") && !str_equal("ab", "abc"));
}

#[test]
fn first_known_action_type() {
    assert_eq!(action_type(&vec![]), ActionType::Unknown);
    assert_eq!(
        action_type(&vec![ActionType::Unknown, ActionType::Client, ActionType::Server]),
        ActionType::Client
    );
    assert_eq!(action_type(&vec![ActionType::Server, ActionType::Client]), ActionType::Server);
    let action = Action { action_type: ActionType::Client, command: Some(ServiceCommand::Pid) };
    assert_eq!(action.command, Some(ServiceCommand::Pid));
}

#[test]
fn client_requests() {
    assert_eq!(client_request_for(ServiceCommand::Enable), Some(ClientRequest::SetAutostart(true)));
    assert_eq!(client_request_for(ServiceCommand::Disable), Some(ClientRequest::SetAutostart(false)));
    assert_eq!(client_request_for(ServiceCommand::Run), None);
    assert_eq!(client_request_for(ServiceCommand::Health), None);
    assert_eq!(command_action_type(ServiceCommand::Run), ActionType::Server);
    assert_eq!(command_action_type(ServiceCommand::Direct), ActionType::Server);
    assert_eq!(command_action_type(ServiceCommand::Stop), ActionType::Client);
    assert_eq!(command_action_type(ServiceCommand::Health), ActionType::Unknown);
    assert_eq!(pid_output(Some(12345)), "12345");
    assert_eq!(pid_output(Some(0)), "0");
    assert_eq!(pid_output(None), "");
}

#[test]
fn builder_defaults() {
    let builder = Builder::default().with_default_client_commands();
    let list = builder.commands_list();
    assert_eq!(list.len(), 9);
    assert!(list.iter().any(|e| e.0 == ServiceCommand::Pid
        && e.1
            == CommandType::Subcommand {
                name: "pid".to_owned(),
                help_text: "Get the service's current PID".to_owned(),
                hide: false
            }));
    assert!(!list.iter().any(|e| e.0 == ServiceCommand::Console));

    let builder = Builder::default().with_default_server_commands();
    let list = builder.commands_list();
    assert_eq!(list.len(), 2);
    assert!(list.iter().any(|e| e.0 == ServiceCommand::Run
        && e.1
            == CommandType::Subcommand {
                name: "run".to_owned(),
                help_text: String::new(),
                hide: true
            }));
    assert!(list.iter().any(|e| e.0 == ServiceCommand::Direct && e.1 == CommandType::Default));
}

#[test]
fn builder_with_action() {
    let builder = Builder::default()
        .with_default_server_commands()
        .with_action(ServiceCommand::Direct, None)
        .with_action(
            ServiceCommand::Health,
            Some(CommandType::Arg {
                short: Some('h'),
                long: Some("health".to_owned()),
                help_text: "Check health".to_owned(),
                hide: false,
            }),
        );
    let list = builder.commands_list();
    assert_eq!(list.len(), 2);
    assert!(!list.iter().any(|e| e.0 == ServiceCommand::Direct));
    assert!(list.iter().any(|e| e.0 == ServiceCommand::Health));
    let (base, table) = builder.into_parts();
    assert!(base.is_arg_required_else_help_set());
    assert_eq!(table.entries().len(), 2);
}
