//! The first form of the server's command provider, without `--label`; it
//! decides what to do from the match it reported.
use vstd::prelude::*;

use super::{ServerArgs, ServerStep};
use crate::text::opt_view;
use crate::provider::{CommandActionType, CommandArg, CommandArgView, CommandMatch, ServerAction};

verus! {

/// The match for the arguments: the run subcommand by name or the run flag
/// runs as a service; no subcommand and no argument at all runs directly.
pub open spec fn server_match_for(run_command: CommandArgView, args: ServerArgs) -> Option<CommandMatch> {
    if (run_command matches CommandArgView::Subcommand(sub) && opt_view(args.subcommand) == Some(sub))
        || (!(run_command is Subcommand) && args.run_flag) {
        Some(CommandMatch { action_type: CommandActionType::Server, action: Some(ServerAction::Run) })
    } else if args.subcommand is None && !args.has_flags {
        Some(
            CommandMatch {
                action_type: CommandActionType::Server,
                action: Some(ServerAction::Direct),
            },
        )
    } else {
        None
    }
}

/// Provides the server's commands. `I` is the data handed to the service.
pub struct ServerCliProvider<I> {
    input_data: Option<I>,
    run_command: CommandArg,
}

impl<I> ServerCliProvider<I> {
    pub closed spec fn input_data(self) -> Option<I> {
        self.input_data
    }

    pub closed spec fn run_command(self) -> CommandArgView {
        self.run_command@
    }

    pub fn new(run_command: &CommandArg) -> (r: Self)
        ensures
            r.run_command() == run_command@,
            r.input_data() is None,
    {
        ServerCliProvider { run_command: run_command.clone_arg(), input_data: None }
    }

    pub fn set_input_data(&mut self, input_data: I)
        ensures
            final(self).input_data() == Some(input_data),
            final(self).run_command() == old(self).run_command(),
    {
        self.input_data = Some(input_data);
    }

    pub fn matches(&self, args: &ServerArgs) -> (r: Option<CommandMatch>)
        ensures
            r == server_match_for(self.run_command(), *args),
    {
        let is_run_sub = match &self.run_command {
            CommandArg::Subcommand(sub) => match &args.subcommand {
                Some(name) => (*name) == (*sub),
                None => false,
            },
            _ => false,
        };
        let is_flag = match &self.run_command {
            CommandArg::Subcommand(_) => false,
            _ => true,
        };
        if is_run_sub || (is_flag && args.run_flag) {
            Some(CommandMatch { action_type: CommandActionType::Server, action: Some(ServerAction::Run) })
        } else if args.subcommand.is_none() && !args.has_flags {
            Some(
                CommandMatch {
                    action_type: CommandActionType::Server,
                    action: Some(ServerAction::Direct),
                },
            )
        } else {
            None
        }
    }

    /// What handling the input amounts to, given the match reported earlier.
    pub fn handle_input(self, matched_command: &Option<CommandMatch>) -> (r: ServerStep<I>)
        ensures
            r == match *matched_command {
                Some(CommandMatch { action: Some(ServerAction::Direct), .. }) => ServerStep::RunDirectly(
                    self.input_data(),
                ),
                Some(CommandMatch { action: Some(ServerAction::Run), .. }) => ServerStep::RunAsService(
                    self.input_data(),
                ),
                _ => ServerStep::Unhandled,
            },
    {
        match matched_command {
            Some(CommandMatch { action: Some(ServerAction::Direct), .. }) => ServerStep::RunDirectly(
                self.input_data,
            ),
            Some(CommandMatch { action: Some(ServerAction::Run), .. }) => ServerStep::RunAsService(
                self.input_data,
            ),
            _ => ServerStep::Unhandled,
        }
    }
}

} // verus!
