//! The `notify` command: sends a notification described on the command line.
use vstd::prelude::*;

use crate::text::opt_view;

use super::{notification_args, Notification, NotificationView};
use crate::notify::quoted;
use crate::provider::{CommandActionType, CommandMatch};

verus! {

/// The arguments of `notify`.
#[derive(Clone)]
pub struct NotifyArgs {
    pub summary: String,
    pub subtitle: Option<String>,
    pub body: Option<String>,
    pub image_path: Option<String>,
    pub sound_name: Option<String>,
    pub icon: Option<String>,
}

/// The notification `notify` sends: the application's empty notification
/// with the summary and each part that was given.
pub open spec fn notification_for(label: Seq<char>, args: NotifyArgs) -> NotificationView {
    NotificationView {
        label,
        summary: args.summary@,
        subtitle: opt_view(args.subtitle),
        body: match args.body {
            Some(b) => b@,
            None => Seq::empty(),
        },
        icon: match args.icon {
            Some(i) => i@,
            None => Seq::empty(),
        },
        image_path: opt_view(args.image_path),
        sound_name: opt_view(args.sound_name),
        timeout: super::Timeout::Default,
        urgency: None,
        actions: Seq::empty(),
        id: None,
    }
}

/// Builds the notification `notify` sends.
pub fn build_notification(label: &str, args: &NotifyArgs) -> (r: Notification)
    ensures
        r@ == notification_for(label@, *args),
{
    let mut notification = Notification::new(label).summary(args.summary.as_str());
    if let Some(subtitle) = &args.subtitle {
        notification = notification.subtitle(subtitle.as_str());
    }
    if let Some(body) = &args.body {
        notification = notification.body(body.as_str());
    }
    if let Some(image_path) = &args.image_path {
        notification = notification.image_path(image_path.as_str());
    }
    if let Some(sound_name) = &args.sound_name {
        notification = notification.sound_name(sound_name.as_str());
    }
    if let Some(icon) = &args.icon {
        notification = notification.icon(icon.as_str());
    }
    notification
}

/// The output of `notify`: `Notification sent`, or the error it met.
pub fn notify_output(result: Result<(), String>) -> (r: String)
    ensures
        r@ == match result {
            Ok(()) => "Notification sent"@,
            Err(e) => e@,
        },
{
    match result {
        Ok(()) => "Notification sent".to_owned(),
        Err(e) => e,
    }
}

/// Provides the `notify` command for an application.
pub struct NotifyCliProvider {
    label: String,
    args: Option<NotifyArgs>,
}

impl NotifyCliProvider {
    pub closed spec fn label(self) -> Seq<char> {
        self.label@
    }

    pub closed spec fn matched(self) -> Option<NotifyArgs> {
        self.args
    }

    pub fn new(label: &str) -> (r: Self)
        ensures
            r.label() == label@,
            r.matched() is None,
    {
        NotifyCliProvider { label: label.to_owned(), args: None }
    }

    /// Records the `notify` arguments read from the command line, if any.
    pub fn matches(&mut self, args: Option<NotifyArgs>) -> (r: Option<CommandMatch>)
        ensures
            final(self).label() == old(self).label(),
            match args {
                Some(a) => final(self).matched() == Some(a) && r == Some(
                    CommandMatch { action_type: CommandActionType::Other, action: None },
                ),
                None => r is None && final(self).matched() == old(self).matched(),
            },
    {
        match args {
            Some(a) => {
                self.args = Some(a);
                Some(CommandMatch { action_type: CommandActionType::Other, action: None })
            },
            None => None,
        }
    }

    /// The notification to send, if `notify` was matched.
    pub fn handle_input(&self) -> (r: Option<Notification>)
        ensures
            match self.matched() {
                Some(a) => r matches Some(n) && n@ == notification_for(self.label(), a),
                None => r is None,
            },
    {
        match &self.args {
            Some(a) => Some(build_notification(self.label.as_str(), a)),
            None => None,
        }
    }
}

/// Law: the notification `notify` builds carries every part that was given
/// and nothing else: the summary, the subtitle, the body, the image, the
/// sound and the icon equal their arguments (an absent body or icon is
/// empty); and when a subtitle is given, the arguments that show the same
/// notification from another process start with the quoted summary followed
/// by ` -s` and the quoted subtitle.
pub proof fn law_notification_carries_arguments(label: Seq<char>, args: NotifyArgs)
    ensures
        ({
            let n = notification_for(label, args);
            &&& n.label == label
            &&& n.summary == args.summary@
            &&& n.subtitle == opt_view(args.subtitle)
            &&& n.image_path == opt_view(args.image_path)
            &&& n.sound_name == opt_view(args.sound_name)
            &&& (args.body matches Some(b) ==> n.body == b@)
            &&& (args.body is None ==> n.body.len() == 0)
            &&& (args.icon matches Some(i) ==> n.icon == i@)
            &&& (args.icon is None ==> n.icon.len() == 0)
            &&& n.actions.len() == 0
            &&& n.id is None
            &&& (args.subtitle matches Some(s) ==> (quoted(args.summary@) + " -s "@ + quoted(
                s@,
            )).is_prefix_of(notification_args(n)))
        }),
{
    let n = notification_for(label, args);
    if let Some(s) = args.subtitle {
        let a0 = quoted(n.summary) + " -s "@ + quoted(s@);
        let a1 = if n.body.len() > 0 {
            a0 + " -b "@ + quoted(n.body)
        } else {
            a0
        };
        let a2 = match n.image_path {
            Some(p) => a1 + " -i "@ + quoted(p),
            None => a1,
        };
        let a3 = match n.sound_name {
            Some(x) => a2 + " --sound-name "@ + quoted(x),
            None => a2,
        };
        let a4 = if n.icon.len() > 0 {
            a3 + " --icon "@ + quoted(n.icon)
        } else {
            a3
        };
        assert(notification_args(n) == a4);
        assert(a0.is_prefix_of(a1));
        assert(a1.is_prefix_of(a2));
        assert(a2.is_prefix_of(a3));
        assert(a3.is_prefix_of(a4));
        assert(a0.is_prefix_of(a4));
    }
}

} // verus!
