use daemon_slayer::notify::cli::notify_cli_provider::{sent_message, NotifyCliProvider as FirstNotifyCliProvider};
use daemon_slayer::notify::dialog::cli::{confirm_output, DialogArgs, DialogCliProvider, DialogCommand, DialogStep};
use daemon_slayer::notify::dialog::{
    confirm_answer, message_level_from_lowercase, message_type_parser, parse_confirm_output, Alert,
    Confirm, MessageDialog, MessageLevel,
};
use daemon_slayer::notify::notification::cli::{notify_output, NotifyArgs, NotifyCliProvider};
use daemon_slayer::notify::notification::{Notification, Timeout, Urgency};
use daemon_slayer::notify::{is_admin_value, user_process_command, NotificationService};
use daemon_slayer::provider::{CommandActionType, CommandMatch};
use std::time::Duration;

#[test]
fn dialog_args() {
    let d = MessageDialog::<Alert>::new("app").with_text("hello");
    assert_eq!(d.to_args(), "\"hello\" -m \"info\"");
    let d = d.with_title("Title").with_level(MessageLevel::Error);
    assert_eq!(d.to_args(), "\"hello\" -m \"error\" -t \"Title\"");
    assert_eq!(d.label(), "app");
    assert_eq!(d.title(), "Title");
    assert_eq!(d.text(), "hello");
    let c = MessageDialog::<Confirm>::new("app").with_level(MessageLevel::Warning);
    assert_eq!(c.to_args(), "\"\" -m \"warning\"");
    assert_eq!(c.message_level(), MessageLevel::Warning);
}

#[test]
fn message_type_names() {
    assert_eq!(message_type_parser("info"), Ok(MessageLevel::Info));
    assert_eq!(message_type_parser("WARN"), Ok(MessageLevel::Warning));
    assert_eq!(message_type_parser("Warning"), Ok(MessageLevel::Warning));
    assert_eq!(message_type_parser("ERROR"), Ok(MessageLevel::Error));
    assert_eq!(message_type_parser("Fatal"), Err("Invalid message type fatal".to_owned()));
    assert_eq!(message_level_from_lowercase("warn"), Ok(MessageLevel::Warning));
    assert_eq!(message_level_from_lowercase("WARN"), Err("Invalid message type WARN".to_owned()));
}

#[test]
fn confirmation_output() {
    assert_eq!(parse_confirm_output(" true\n"), Ok(true));
    assert_eq!(parse_confirm_output("false"), Ok(false));
    assert_eq!(
        parse_confirm_output(" maybe "),
        Err("Invalid output from subprocess: maybe".to_owned())
    );
    assert_eq!(confirm_answer(" true"), Err("Invalid output from subprocess:  true".to_owned()));
    assert_eq!(confirm_output(Ok(true)), "true");
    assert_eq!(confirm_output(Ok(false)), "false");
    assert_eq!(confirm_output(Err("bad".to_owned())), "bad");
}

#[test]
fn admin_and_command_line() {
    assert!(is_admin_value("1"));
    assert!(is_admin_value("true"));
    assert!(!is_admin_value("TRUE"));
    assert!(!is_admin_value("0"));
    assert_eq!(user_process_command("/bin/app", "alert", "\"x\""), "/bin/app alert \"x\"");
}

#[test]
fn notification_args() {
    let n = Notification::new("app").summary("Sum");
    assert_eq!(n.to_args(), "\"Sum\"");
    let n = n
        .subtitle("Sub")
        .body("Body")
        .image_path("/i.png")
        .sound_name("ding")
        .icon("ico");
    assert_eq!(
        n.to_args(),
        "\"Sum\" -s \"Sub\" -b \"Body\" -i \"/i.png\" --sound-name \"ding\" --icon \"ico\""
    );
    let empty_body = Notification::new("app").summary("S").body("").icon("");
    assert_eq!(empty_body.to_args(), "\"S\"");
}

#[test]
fn notification_settings() {
    let n = Notification::new("app")
        .timeout(Timeout::Milliseconds(500))
        .urgency(Urgency::Critical)
        .action("ok", "OK")
        .action("no", "No")
        .id(9)
        .auto_icon("daemon");
    assert_eq!(n.label, "app");
    assert_eq!(n.get_timeout(), Timeout::Milliseconds(500));
    assert_eq!(n.get_urgency(), Some(Urgency::Critical));
    assert_eq!(
        n.get_actions(),
        &vec![("ok".to_owned(), "OK".to_owned()), ("no".to_owned(), "No".to_owned())]
    );
    assert_eq!(n.get_id(), Some(9));
    assert_eq!(n.get_icon(), "daemon");
    assert!(n.to_args().ends_with(" --icon \"daemon\""));
    assert_eq!(n.get_summary(), "");
    assert_eq!(n.get_subtitle(), None);
}

fn notify_args() -> NotifyArgs {
    NotifyArgs {
        summary: "Hi".to_owned(),
        subtitle: None,
        body: Some("there".to_owned()),
        image_path: None,
        sound_name: Some("ding".to_owned()),
        icon: None,
    }
}

#[test]
fn notify_providers() {
    let mut p = NotifyCliProvider::new("app");
    assert!(p.handle_input().is_none());
    assert_eq!(
        p.matches(Some(notify_args())),
        Some(CommandMatch { action_type: CommandActionType::Other, action: None })
    );
    let n = p.handle_input().unwrap();
    assert_eq!(n.to_args(), "\"Hi\" -b \"there\" --sound-name \"ding\"");
    assert_eq!(notify_output(Ok(())), "Notification sent");
    assert_eq!(notify_output(Err("no bus".to_owned())), "no bus");

    let first = FirstNotifyCliProvider::new("app");
    assert_eq!(
        first.matches(&Some(notify_args())),
        Some(CommandMatch { action_type: CommandActionType::Server, action: None })
    );
    assert_eq!(first.matches(&None), None);
    assert_eq!(first.handle_input(&Some(notify_args())).unwrap().get_body(), "there");
    assert_eq!(sent_message(), "Notification sent");
}

#[test]
fn dialog_provider() {
    let mut p = DialogCliProvider::new("app");
    assert!(matches!(p.handle_input(), DialogStep::Unhandled));
    let args = DialogArgs {
        title: Some("T".to_owned()),
        text: "Go?".to_owned(),
        message_type: Some(MessageLevel::Error),
    };
    assert_eq!(
        p.matches(Some(DialogCommand::Confirm(args.clone()))),
        Some(CommandMatch { action_type: CommandActionType::Other, action: None })
    );
    match p.handle_input() {
        DialogStep::ShowConfirm(d) => {
            assert_eq!(d.to_args(), "\"Go?\" -m \"info\" -t \"T\"");
        }
        _ => panic!("expected a confirmation"),
    }
    p.matches(Some(DialogCommand::Alert(DialogArgs { title: None, ..args })));
    match p.handle_input() {
        DialogStep::ShowAlert(d) => assert_eq!(d.to_args(), "\"Go?\" -m \"info\""),
        _ => panic!("expected an alert"),
    }
}

#[test]
fn notification_service() {
    let service = NotificationService::new(vec![1u8], |e: u8| Some(e));
    let service = service.with_shutdown_timeout(Duration::from_secs(2));
    let (store, f, timeout) = service.into_parts();
    assert_eq!(store, vec![1u8]);
    assert_eq!(f(3), Some(3));
    assert_eq!(timeout, Some(Duration::from_secs(2)));
    let (_, _, none) = NotificationService::new((), ()).into_parts();
    assert_eq!(none, None);
}
