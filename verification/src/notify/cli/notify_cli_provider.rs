//! The first form of the `notify` command provider: the command is handled
//! on the server side and read again when it is handled.
use vstd::prelude::*;

use crate::notify::notification::cli::{build_notification, notification_for, NotifyArgs};
use crate::notify::notification::Notification;
use crate::provider::{CommandActionType, CommandMatch};

verus! {

/// Provides the `notify` command for an application.
pub struct NotifyCliProvider {
    label: String,
}

impl NotifyCliProvider {
    pub closed spec fn label(self) -> Seq<char> {
        self.label@
    }

    pub fn new(label: &str) -> (r: Self)
        ensures
            r.label() == label@,
    {
        NotifyCliProvider { label: label.to_owned() }
    }

    pub fn matches(&self, args: &Option<NotifyArgs>) -> (r: Option<CommandMatch>)
        ensures
            r == match args {
                Some(_) => Some(CommandMatch { action_type: CommandActionType::Server, action: None }),
                None => None,
            },
    {
        match args {
            Some(_) => Some(CommandMatch { action_type: CommandActionType::Server, action: None }),
            None => None,
        }
    }

    /// The notification to send for the arguments read from the command line.
    pub fn handle_input(&self, args: &Option<NotifyArgs>) -> (r: Option<Notification>)
        ensures
            match args {
                Some(a) => r matches Some(n) && n@ == notification_for(self.label(), *a),
                None => r is None,
            },
    {
        match args {
            Some(a) => Some(build_notification(self.label.as_str(), a)),
            None => None,
        }
    }
}

/// The output of this provider once the notification is sent.
pub fn sent_message() -> (r: String)
    ensures
        r@ == "Notification sent"@,
{
    "Notification sent".to_owned()
}

} // verus!
