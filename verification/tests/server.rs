use daemon_slayer::provider::{CommandActionType, CommandArg, CommandMatch, ServerAction};
use daemon_slayer::server::cli::server_cli_provider::ServerCliProvider as FirstServerCliProvider;
use daemon_slayer::server::cli::{ServerArgs, ServerCliProvider, ServerStep};
use daemon_slayer::server::platform::{
    exit_code_for, handle_control_event, is_user_service, split_env_var, ControlHandlerResult,
    ServiceControlKind,
};
use daemon_slayer::server::socket_activation::{
    activation_plan, activation_result, to_hash_map, ActivationPlan, ActivationSockets,
    SocketPlan, SocketType,
};
use daemon_slayer::server::ServiceError;

fn args(sub: Option<&str>, run: bool, label: bool, has_flags: bool) -> ServerArgs {
    ServerArgs {
        subcommand: sub.map(|s| s.to_owned()),
        run_flag: run,
        label_flag: label,
        has_flags,
    }
}

#[test]
fn service_outcome() {
    assert_eq!(ServiceError::<u8, u16>::from_service_result(Ok(()), Ok(())), Ok(()));
    assert_eq!(
        ServiceError::<u8, u16>::from_service_result(Ok(()), Err(3)),
        Err(ServiceError::BackgroundServiceFailure(3))
    );
    assert_eq!(
        ServiceError::<u8, u16>::from_service_result(Err(1), Ok(())),
        Err(ServiceError::ExecutionFailure(1, None))
    );
    assert_eq!(
        ServiceError::<u8, u16>::from_service_result(Err(1), Err(2)),
        Err(ServiceError::ExecutionFailure(1, Some(2)))
    );
}

#[test]
fn server_provider_subcommand() {
    let mut p: ServerCliProvider<u32> = ServerCliProvider::new(&CommandArg::Subcommand("run".to_owned()));
    p.set_input_data(5);
    assert_eq!(p.matches(&args(Some("other"), false, false, true)), None);
    assert_eq!(
        p.matches(&args(Some("run"), false, false, true)),
        Some(CommandMatch { action_type: CommandActionType::Server, action: Some(ServerAction::Run) })
    );
    assert_eq!(p.handle_input(), ServerStep::RunAsService(Some(5)));
}

#[test]
fn server_provider_direct_and_label() {
    let mut p: ServerCliProvider<u32> = ServerCliProvider::new(&CommandArg::LongArg("run".to_owned()));
    assert_eq!(
        p.matches(&args(None, false, false, false)),
        Some(CommandMatch { action_type: CommandActionType::Server, action: Some(ServerAction::Direct) })
    );
    assert_eq!(p.handle_input(), ServerStep::RunDirectly(None));

    let mut p: ServerCliProvider<u32> = ServerCliProvider::new(&CommandArg::ShortArg('r'));
    assert_eq!(
        p.matches(&args(None, false, true, true)),
        Some(CommandMatch { action_type: CommandActionType::Other, action: None })
    );
    assert_eq!(p.handle_input(), ServerStep::ShowLabel);

    let mut p: ServerCliProvider<u32> = ServerCliProvider::new(&CommandArg::ShortArg('r'));
    assert_eq!(
        p.matches(&args(None, true, true, true)),
        Some(CommandMatch { action_type: CommandActionType::Server, action: Some(ServerAction::Run) })
    );
    let p: ServerCliProvider<u32> = ServerCliProvider::new(&CommandArg::ShortArg('r'));
    assert_eq!(p.handle_input(), ServerStep::Unhandled);
}

#[test]
fn first_server_provider() {
    let mut p: FirstServerCliProvider<&str> = FirstServerCliProvider::new(&CommandArg::Subcommand("run".to_owned()));
    p.set_input_data("data");
    let m = p.matches(&args(Some("run"), false, false, true));
    assert_eq!(
        m,
        Some(CommandMatch { action_type: CommandActionType::Server, action: Some(ServerAction::Run) })
    );
    assert_eq!(p.matches(&args(Some("x"), false, false, true)), None);
    assert_eq!(p.handle_input(&m), ServerStep::RunAsService(Some("data")));
    let p: FirstServerCliProvider<&str> = FirstServerCliProvider::new(&CommandArg::LongArg("run".to_owned()));
    let m = p.matches(&args(None, false, true, false));
    assert_eq!(
        m,
        Some(CommandMatch { action_type: CommandActionType::Server, action: Some(ServerAction::Direct) })
    );
    assert_eq!(p.handle_input(&m), ServerStep::RunDirectly(None));
    let p: FirstServerCliProvider<&str> = FirstServerCliProvider::new(&CommandArg::LongArg("run".to_owned()));
    assert_eq!(p.handle_input(&None), ServerStep::Unhandled);
}

#[test]
fn windows_control_events() {
    assert_eq!(
        handle_control_event(ServiceControlKind::Interrogate),
        (ControlHandlerResult::NoError, false)
    );
    assert_eq!(handle_control_event(ServiceControlKind::Stop), (ControlHandlerResult::NoError, true));
    assert_eq!(
        handle_control_event(ServiceControlKind::Other),
        (ControlHandlerResult::NotImplemented, false)
    );
    assert_eq!(exit_code_for::<String>(&Ok(())), 0);
    assert_eq!(exit_code_for(&Err("x")), 1);
    assert!(is_user_service(Some(0x50)));
    assert!(is_user_service(Some(0x60)));
    assert!(!is_user_service(Some(0x10)));
    assert!(!is_user_service(None));
}

#[test]
fn environment_entries() {
    assert_eq!(split_env_var("PATH=/bin"), ("PATH".to_owned(), "/bin".to_owned()));
    assert_eq!(split_env_var("A=b=c"), ("A".to_owned(), "b".to_owned()));
    assert_eq!(split_env_var("EMPTY="), ("EMPTY".to_owned(), String::new()));
    assert_eq!(split_env_var("=v"), (String::new(), "v".to_owned()));
}

#[test]
fn activation_plans() {
    assert_eq!(activation_plan(0, 3), ActivationPlan::Fresh);
    assert_eq!(activation_plan(2, 2), ActivationPlan::Activated);
    let mut sockets = ActivationSockets::get(vec![SocketType::Tcp, SocketType::Ipc], 1);
    assert_eq!(sockets.next(), Some(SocketPlan { socket_type: SocketType::Tcp, descriptor: Some(0) }));
    assert_eq!(sockets.next(), Some(SocketPlan { socket_type: SocketType::Ipc, descriptor: None }));
    assert_eq!(sockets.next(), None);
    assert_eq!(sockets.next(), None);
}

#[test]
fn sockets_grouped_by_name() {
    let groups = to_hash_map(vec![
        ("a".to_owned(), 1),
        ("b".to_owned(), 2),
        ("a".to_owned(), 3),
        ("c".to_owned(), 4),
        ("b".to_owned(), 5),
    ]);
    assert_eq!(groups.len(), 3);
    let find = |n: &str| groups.iter().find(|g| g.0 == n).map(|g| g.1.clone());
    assert_eq!(find("a"), Some(vec![1, 3]));
    assert_eq!(find("b"), Some(vec![2, 5]));
    assert_eq!(find("c"), Some(vec![4]));
    assert_eq!(find("d"), None);
    let total: usize = groups.iter().map(|g| g.1.len()).sum();
    assert_eq!(total, 5);
    assert!(to_hash_map::<u8>(vec![]).is_empty());

    let result = activation_result(ActivationPlan::Activated, vec![("x".to_owned(), 'q')]);
    assert!(result.is_activated);
    assert_eq!(result.sockets, vec![("x".to_owned(), vec!['q'])]);
    assert!(!activation_result::<u8>(ActivationPlan::Fresh, vec![]).is_activated);
}
