use daemon_slayer::process::cli::process_cli_provider::{
    killed_message, ProcessCliProvider as FirstProcessCliProvider,
};
use daemon_slayer::process::cli::{
    info_message, kill_message, not_running_message, ProcessCliProvider, ProcessStep,
    ProcessSubcommand,
};
use daemon_slayer::process::{format_runtime, ProcessStatus};
use daemon_slayer::provider::{CommandActionType, CommandMatch};

#[test]
fn status_from_sysinfo() {
    assert_eq!(
        ProcessStatus::from_sysinfo_status(sysinfo::ProcessStatus::Run),
        ProcessStatus::Running
    );
    assert_eq!(
        ProcessStatus::from_sysinfo_status(sysinfo::ProcessStatus::Sleep),
        ProcessStatus::Sleeping
    );
    assert_eq!(
        ProcessStatus::from_sysinfo_status(sysinfo::ProcessStatus::Unknown(7)),
        ProcessStatus::Unknown(7)
    );
    assert_eq!(
        ProcessStatus::from_sysinfo_status(sysinfo::ProcessStatus::UninterruptibleDiskSleep),
        ProcessStatus::UninterruptibleDiskSleep
    );
}

#[test]
fn status_messages() {
    assert_eq!(ProcessStatus::Running.to_string(), "Running");
    assert_eq!(ProcessStatus::LockBlocked.to_string(), "Lock Blocked");
    assert_eq!(
        ProcessStatus::UninterruptibleDiskSleep.to_string(),
        "Uninterruptible Disk Sleep"
    );
    assert_eq!(ProcessStatus::Unknown(3).to_string(), "Unknown");
    assert_eq!(ProcessStatus::Wakekill.to_string(), "Wakekill");
}

#[test]
fn runtime_formatting() {
    assert_eq!(format_runtime(0), "00:00:00");
    assert_eq!(format_runtime(59), "00:00:59");
    assert_eq!(format_runtime(61), "00:01:01");
    assert_eq!(format_runtime(3 * 3600 + 25 * 60 + 7), "03:25:07");
    assert_eq!(format_runtime(100 * 3600), "100:00:00");
    assert_eq!(format_runtime(-30), "00:00:-30");
    assert_eq!(format_runtime(-3661), "-1:-1:-1");
    assert_eq!(format_runtime(i64::MAX), "2562047788015215:30:07");
}

#[test]
fn runtime_parts_add_up() {
    for s in [0i64, 1, 59, 60, 3599, 3600, 86399, 1_000_000] {
        let text = format_runtime(s);
        let parts: Vec<i64> = text.split(':').map(|p| p.parse().unwrap()).collect();
        assert_eq!(parts[0] * 3600 + parts[1] * 60 + parts[2], s);
        assert!(parts[1] < 60 && parts[2] < 60);
    }
}

#[test]
fn process_provider_steps() {
    let mut provider = ProcessCliProvider::new(Some(42));
    assert_eq!(provider.handle_input(), ProcessStep::Unhandled);
    assert_eq!(provider.matches(None), None);
    assert_eq!(
        provider.matches(Some(ProcessSubcommand::Info)),
        Some(CommandMatch { action_type: CommandActionType::Client, action: None })
    );
    assert_eq!(provider.handle_input(), ProcessStep::ShowInfo(42));
    provider.matches(Some(ProcessSubcommand::Kill));
    assert_eq!(provider.handle_input(), ProcessStep::Kill(42));

    let mut stopped = ProcessCliProvider::new(None);
    stopped.matches(Some(ProcessSubcommand::Kill));
    assert_eq!(stopped.handle_input(), ProcessStep::NotRunning);
}

#[test]
fn process_messages() {
    assert_eq!(not_running_message(), "Error: process is not running");
    assert_eq!(info_message(None), "Process not found");
    assert_eq!(info_message(Some("Name: x".to_owned())), "Name: x");
    assert_eq!(kill_message(Some(true)), "Kill signal sent");
    assert_eq!(kill_message(Some(false)), "Failed to send kill signal");
    assert_eq!(kill_message(None), "Process not found");
    assert_eq!(killed_message(), "Process killed");
}

#[test]
fn first_process_provider() {
    let provider = FirstProcessCliProvider::new(Some(7));
    assert_eq!(
        provider.matches(Some(ProcessSubcommand::Kill)),
        Some(CommandMatch { action_type: CommandActionType::Client, action: None })
    );
    assert_eq!(provider.matches(None), None);
    assert_eq!(provider.handle_input(Some(ProcessSubcommand::Info)), ProcessStep::ShowInfo(7));
    assert_eq!(provider.handle_input(None), ProcessStep::Unhandled);
    assert_eq!(
        FirstProcessCliProvider::new(None).handle_input(Some(ProcessSubcommand::Info)),
        ProcessStep::NotRunning
    );
}
