//! The `alert` and `confirm` commands: show a dialog described on the
//! command line.
use vstd::prelude::*;

use super::{Alert, Confirm, MessageDialog, MessageDialogView, MessageLevel};
use crate::provider::{CommandActionType, CommandMatch};

verus! {

/// The arguments of `alert` and `confirm`.
#[derive(Clone)]
pub struct DialogArgs {
    pub title: Option<String>,
    pub text: String,
    pub message_type: Option<MessageLevel>,
}

/// `alert` or `confirm`, with its arguments.
#[derive(Clone)]
pub enum DialogCommand {
    Alert(DialogArgs),
    Confirm(DialogArgs),
}

/// The dialog a command shows: the application's informational dialog, with
/// the title, if given, and the text. The message type read from the command
/// line is not applied.
pub open spec fn dialog_for(label: Seq<char>, args: DialogArgs) -> MessageDialogView {
    MessageDialogView {
        label,
        title: match args.title {
            Some(t) => t@,
            None => Seq::empty(),
        },
        text: args.text@,
        message_level: MessageLevel::Info,
    }
}

fn build_dialog<T>(label: &str, args: &DialogArgs) -> (r: MessageDialog<T>)
    ensures
        r@ == dialog_for(label@, *args),
{
    let mut dialog = MessageDialog::<T>::new(label);
    if let Some(title) = &args.title {
        dialog = dialog.with_title(title.as_str());
    }
    dialog.with_text(args.text.as_str())
}

/// What handling the input amounts to.
pub enum DialogStep {
    Unhandled,
    ShowAlert(MessageDialog<Alert>),
    ShowConfirm(MessageDialog<Confirm>),
}

/// Provides the `alert` and `confirm` commands for an application.
pub struct DialogCliProvider {
    label: String,
    matched_command: Option<DialogCommand>,
}

impl DialogCliProvider {
    pub closed spec fn label(self) -> Seq<char> {
        self.label@
    }

    pub closed spec fn matched(self) -> Option<DialogCommand> {
        self.matched_command
    }

    pub fn new(label: &str) -> (r: Self)
        ensures
            r.label() == label@,
            r.matched() is None,
    {
        DialogCliProvider { label: label.to_owned(), matched_command: None }
    }

    /// Records the dialog command read from the command line, if any.
    pub fn matches(&mut self, command: Option<DialogCommand>) -> (r: Option<CommandMatch>)
        ensures
            final(self).label() == old(self).label(),
            match command {
                Some(c) => final(self).matched() == Some(c) && r == Some(
                    CommandMatch { action_type: CommandActionType::Other, action: None },
                ),
                None => r is None && final(self).matched() == old(self).matched(),
            },
    {
        match command {
            Some(c) => {
                self.matched_command = Some(c);
                Some(CommandMatch { action_type: CommandActionType::Other, action: None })
            },
            None => None,
        }
    }

    /// The dialog to show, if a dialog command was matched.
    pub fn handle_input(&self) -> (r: DialogStep)
        ensures
            match self.matched() {
                None => r is Unhandled,
                Some(DialogCommand::Alert(a)) => r matches DialogStep::ShowAlert(d) && d@ == dialog_for(
                    self.label(),
                    a,
                ),
                Some(DialogCommand::Confirm(a)) => r matches DialogStep::ShowConfirm(d) && d@
                    == dialog_for(self.label(), a),
            },
    {
        match &self.matched_command {
            None => DialogStep::Unhandled,
            Some(DialogCommand::Alert(args)) => DialogStep::ShowAlert(build_dialog(self.label.as_str(), args)),
            Some(DialogCommand::Confirm(args)) => DialogStep::ShowConfirm(
                build_dialog(self.label.as_str(), args),
            ),
        }
    }
}

/// The output of `confirm`: `true` or `false`, or the error met.
pub fn confirm_output(result: Result<bool, String>) -> (r: String)
    ensures
        r@ == match result {
            Ok(true) => "true"@,
            Ok(false) => "false"@,
            Err(e) => e@,
        },
{
    match result {
        Ok(true) => "true".to_owned(),
        Ok(false) => "false".to_owned(),
        Err(e) => e,
    }
}

} // verus!
