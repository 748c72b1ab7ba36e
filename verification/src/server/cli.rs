//! The server's own commands: run as a service, run directly, print the label.
use vstd::prelude::*;

use crate::text::opt_view;

use crate::provider::{CommandActionType, CommandArg, CommandArgView, CommandMatch, ServerAction};

pub mod server_cli_provider;

verus! {

/// Which server command was matched.
#[derive(Debug, Clone, Copy, PartialEq, Eq, Structural)]
pub enum ServerCommand {
    Run,
    Direct,
    Label,
}

/// What the arguments say, as far as the server's commands are concerned.
pub struct ServerArgs {
    /// The name of the subcommand given, if any.
    pub subcommand: Option<String>,
    /// Whether the run flag was given (only read when the run command is a flag).
    pub run_flag: bool,
    /// Whether `--label` was given.
    pub label_flag: bool,
    /// Whether any argument was given other than by its default.
    pub has_flags: bool,
}

/// The server command the arguments select: the run subcommand by name or the
/// run flag; otherwise `--label`; otherwise, with no subcommand and no
/// argument at all, running directly.
pub open spec fn server_command_for(run_command: CommandArgView, args: ServerArgs) -> Option<ServerCommand> {
    if run_command matches CommandArgView::Subcommand(sub) && opt_view(args.subcommand) == Some(sub) {
        Some(ServerCommand::Run)
    } else if !(run_command is Subcommand) && args.run_flag {
        Some(ServerCommand::Run)
    } else if args.label_flag {
        Some(ServerCommand::Label)
    } else if args.subcommand is None && !args.has_flags {
        Some(ServerCommand::Direct)
    } else {
        None
    }
}

/// The match reported for a server command.
pub open spec fn server_match(c: ServerCommand) -> CommandMatch {
    match c {
        ServerCommand::Run => CommandMatch {
            action_type: CommandActionType::Server,
            action: Some(ServerAction::Run),
        },
        ServerCommand::Direct => CommandMatch {
            action_type: CommandActionType::Server,
            action: Some(ServerAction::Direct),
        },
        ServerCommand::Label => CommandMatch { action_type: CommandActionType::Other, action: None },
    }
}

pub fn server_command_for_exec(run_command: &CommandArg, args: &ServerArgs) -> (r: Option<ServerCommand>)
    ensures
        r == server_command_for(run_command@, *args),
{
    let is_run_sub = match run_command {
        CommandArg::Subcommand(sub) => match &args.subcommand {
            Some(name) => (*name) == (*sub),
            None => false,
        },
        _ => false,
    };
    if is_run_sub {
        return Some(ServerCommand::Run);
    }
    let is_flag = match run_command {
        CommandArg::Subcommand(_) => false,
        _ => true,
    };
    if is_flag && args.run_flag {
        Some(ServerCommand::Run)
    } else if args.label_flag {
        Some(ServerCommand::Label)
    } else if args.subcommand.is_none() && !args.has_flags {
        Some(ServerCommand::Direct)
    } else {
        None
    }
}

pub fn server_match_exec(c: ServerCommand) -> (r: CommandMatch)
    ensures
        r == server_match(c),
{
    match c {
        ServerCommand::Run => CommandMatch {
            action_type: CommandActionType::Server,
            action: Some(ServerAction::Run),
        },
        ServerCommand::Direct => CommandMatch {
            action_type: CommandActionType::Server,
            action: Some(ServerAction::Direct),
        },
        ServerCommand::Label => CommandMatch { action_type: CommandActionType::Other, action: None },
    }
}

/// What the server does when asked to handle its input.
#[derive(Debug, Clone, PartialEq, Eq)]
pub enum ServerStep<I> {
    /// Run the service in the foreground with this input.
    RunDirectly(Option<I>),
    /// Run under the platform's service manager with this input.
    RunAsService(Option<I>),
    /// Print the service's qualified label.
    ShowLabel,
    /// Nothing to do.
    Unhandled,
}

/// Provides the server's commands. `I` is the data handed to the service.
pub struct ServerCliProvider<I> {
    input_data: Option<I>,
    run_command: CommandArg,
    matched_command: Option<ServerCommand>,
}

impl<I> ServerCliProvider<I> {
    pub closed spec fn input_data(self) -> Option<I> {
        self.input_data
    }

    pub closed spec fn run_command(self) -> CommandArgView {
        self.run_command@
    }

    pub closed spec fn matched(self) -> Option<ServerCommand> {
        self.matched_command
    }

    pub fn new(run_command: &CommandArg) -> (r: Self)
        ensures
            r.run_command() == run_command@,
            r.input_data() is None,
            r.matched() is None,
    {
        ServerCliProvider { run_command: run_command.clone_arg(), input_data: None, matched_command: None }
    }

    pub fn set_input_data(&mut self, input_data: I)
        ensures
            final(self).input_data() == Some(input_data),
            final(self).run_command() == old(self).run_command(),
            final(self).matched() == old(self).matched(),
    {
        self.input_data = Some(input_data);
    }

    /// Reads which server command the arguments select, records it and
    /// reports the match.
    pub fn matches(&mut self, args: &ServerArgs) -> (r: Option<CommandMatch>)
        ensures
            r == match server_command_for(old(self).run_command(), *args) {
                Some(c) => Some(server_match(c)),
                None => None,
            },
            final(self).matched() == match server_command_for(old(self).run_command(), *args) {
                Some(c) => Some(c),
                None => old(self).matched(),
            },
            final(self).run_command() == old(self).run_command(),
            final(self).input_data() == old(self).input_data(),
    {
        match server_command_for_exec(&self.run_command, args) {
            Some(c) => {
                self.matched_command = Some(c);
                Some(server_match_exec(c))
            },
            None => None,
        }
    }

    /// What handling the input amounts to; the input data goes to the run.
    pub fn handle_input(self) -> (r: ServerStep<I>)
        ensures
            r == match self.matched() {
                Some(ServerCommand::Direct) => ServerStep::RunDirectly(self.input_data()),
                Some(ServerCommand::Run) => ServerStep::RunAsService(self.input_data()),
                Some(ServerCommand::Label) => ServerStep::ShowLabel,
                None => ServerStep::Unhandled,
            },
    {
        match self.matched_command {
            Some(ServerCommand::Direct) => ServerStep::RunDirectly(self.input_data),
            Some(ServerCommand::Run) => ServerStep::RunAsService(self.input_data),
            Some(ServerCommand::Label) => ServerStep::ShowLabel,
            None => ServerStep::Unhandled,
        }
    }
}

/// Law: how a command line selects a server command. Running directly needs
/// no subcommand and no argument at all; running needs the run subcommand by
/// name or the run flag; printing the label needs `--label`; a command line
/// that names another subcommand, without the run flag or `--label`, selects
/// nothing, so other providers can take it.
pub proof fn law_server_command_choice(run_command: CommandArgView, args: ServerArgs)
    ensures
        server_command_for(run_command, args) == Some(ServerCommand::Direct) ==> args.subcommand is None
            && !args.has_flags && !args.label_flag,
        server_command_for(run_command, args) == Some(ServerCommand::Run) ==> (
        run_command matches CommandArgView::Subcommand(sub) && opt_view(args.subcommand) == Some(sub)) || (
        !(run_command is Subcommand) && args.run_flag),
        server_command_for(run_command, args) == Some(ServerCommand::Label) ==> args.label_flag,
        (run_command matches CommandArgView::Subcommand(sub) && opt_view(args.subcommand) == Some(sub))
            ==> server_command_for(run_command, args) == Some(ServerCommand::Run),
        (args.subcommand matches Some(s) && !(run_command matches CommandArgView::Subcommand(sub) && s@ == sub)
            && !args.label_flag && !(!(run_command is Subcommand) && args.run_flag))
            ==> server_command_for(run_command, args) is None,
{
}

} // verus!
