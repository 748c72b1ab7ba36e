//! Building the command line: which commands it offers and how each is given.
use clap::Command as ClapCommand;
use vstd::prelude::*;

use super::commands::{client_help, command_at};
use crate::text::opt_view;
use super::table::KeyTable;
use super::{command_index, command_name, ServiceCommand};

verus! {

/// The command line being built.
#[verifier::external_type_specification]
#[verifier::external_body]
pub struct ExClapCommand(ClapCommand);

/// How a command is given on the command line.
#[derive(Debug, Clone, PartialEq, Eq)]
pub enum CommandType {
    /// A subcommand, hidden from the help when `hide`.
    Subcommand { name: String, help_text: String, hide: bool },
    /// A flag, short, long or both.
    Arg { short: Option<char>, long: Option<String>, help_text: String, hide: bool },
    /// The command line with no argument at all.
    Default,
}

/// The view of a `CommandType`, with its texts as character sequences.
pub enum CommandTypeView {
    Subcommand { name: Seq<char>, help_text: Seq<char>, hide: bool },
    Arg { short: Option<char>, long: Option<Seq<char>>, help_text: Seq<char>, hide: bool },
    Default,
}

impl View for CommandType {
    type V = CommandTypeView;

    open spec fn view(&self) -> CommandTypeView {
        match self {
            CommandType::Subcommand { name, help_text, hide } => CommandTypeView::Subcommand {
                name: name@,
                help_text: help_text@,
                hide: *hide,
            },
            CommandType::Arg { short, long, help_text, hide } => CommandTypeView::Arg {
                short: *short,
                long: opt_view(*long),
                help_text: help_text@,
                hide: *hide,
            },
            CommandType::Default => CommandTypeView::Default,
        }
    }
}

/// The command each client action is given as by default: a visible
/// subcommand named after the action, with its help text. The console has
/// no default here.
pub open spec fn default_client_command(a: ServiceCommand) -> Option<CommandTypeView> {
    if a != ServiceCommand::Console && client_help(a) is Some {
        Some(CommandTypeView::Subcommand { name: command_name(a), help_text: client_help(a)->0, hide: false })
    } else {
        None
    }
}

/// The command each server action is given as by default: `run` as a hidden
/// subcommand without help, running directly as the bare command line.
pub open spec fn default_server_command(a: ServiceCommand) -> Option<CommandTypeView> {
    if a == ServiceCommand::Run {
        Some(CommandTypeView::Subcommand { name: "run"@, help_text: Seq::empty(), hide: true })
    } else if a == ServiceCommand::Direct {
        Some(CommandTypeView::Default)
    } else {
        None
    }
}

/// `new` is `old` with the commands of `defaults` set, the rest untouched.
pub open spec fn with_defaults(
    old: Map<ServiceCommand, CommandType>,
    new: Map<ServiceCommand, CommandType>,
    defaults: spec_fn(ServiceCommand) -> Option<CommandTypeView>,
) -> bool {
    &&& forall|a: ServiceCommand| #[trigger] new.dom().contains(a) <==> (old.dom().contains(a) || defaults(a) is Some)
    &&& forall|a: ServiceCommand|
        #[trigger] new.dom().contains(a) ==> if defaults(a) is Some {
            defaults(a) == Some(new[a]@)
        } else {
            new[a] == old[a]
        }
}

/// The command clap builds as `Command::default().arg_required_else_help(flag)`:
/// a command with no name, argument or subcommand, which shows its help when
/// given no argument exactly when `flag` is set.
pub uninterp spec fn clap_base_command(arg_required_else_help: bool) -> ClapCommand;

/// Calls `clap::Command::default` and then
/// `clap::Command::arg_required_else_help` with `arg_required_else_help`.
/// Claims only that the value is the one named `clap_base_command` for that
/// flag: both calls depend on their arguments alone; what the command holds
/// inside is not stated.
#[verifier::external_body]
fn default_base_command(arg_required_else_help: bool) -> (r: ClapCommand)
    ensures
        r == clap_base_command(arg_required_else_help),
{
    ClapCommand::default().arg_required_else_help(arg_required_else_help)
}

fn client_command_exec(a: ServiceCommand) -> (r: Option<CommandType>)
    ensures
        match r {
            Some(c) => default_client_command(a) == Some(c@),
            None => default_client_command(a) is None,
        },
{
    if a == ServiceCommand::Console {
        return None;
    }
    let help = match a {
        ServiceCommand::Install => "Install the service using the system's service manager",
        ServiceCommand::Uninstall => "Uninstall the service from the system's service manager",
        ServiceCommand::Start => "Start the service",
        ServiceCommand::Info => "Get the service's current status",
        ServiceCommand::Pid => "Get the service's current PID",
        ServiceCommand::Stop => "Stop the service",
        ServiceCommand::Restart => "Restart the service",
        ServiceCommand::Enable => "Enable autostart",
        ServiceCommand::Disable => "Disable autostart",
        _ => {
            return None;
        },
    };
    Some(CommandType::Subcommand { name: a.to_string(), help_text: help.to_owned(), hide: false })
}

fn server_command_exec(a: ServiceCommand) -> (r: Option<CommandType>)
    ensures
        match r {
            Some(c) => default_server_command(a) == Some(c@),
            None => default_server_command(a) is None,
        },
{
    if a == ServiceCommand::Run {
        let run = "run";
        let empty = "";
        proof {
            reveal_strlit("");
            assert(empty@ =~= Seq::<char>::empty());
        }
        Some(CommandType::Subcommand { name: run.to_owned(), help_text: empty.to_owned(), hide: true })
    } else if a == ServiceCommand::Direct {
        Some(CommandType::Default)
    } else {
        None
    }
}

/// Builds the command line: a base command and the command each action is
/// given as.
pub struct Builder {
    base_command: ClapCommand,
    commands: KeyTable<ServiceCommand, CommandType>,
}

impl Builder {
    pub closed spec fn well_formed(self) -> bool {
        self.commands.well_formed()
    }

    pub closed spec fn commands(self) -> Map<ServiceCommand, CommandType> {
        self.commands.view()
    }

    pub closed spec fn base(self) -> ClapCommand {
        self.base_command
    }

    /// A builder with no command and a base command that shows the help when
    /// it is given no argument.
    pub fn default() -> (r: Self)
        ensures
            r.well_formed(),
            r.commands() == Map::<ServiceCommand, CommandType>::empty(),
            r.base() == clap_base_command(true),
    {
        Builder { base_command: default_base_command(true), commands: KeyTable::new() }
    }

    pub fn with_base_command(self, command: ClapCommand) -> (r: Self)
        requires
            self.well_formed(),
        ensures
            r.well_formed(),
            r.base() == command,
            r.commands() == self.commands(),
    {
        Builder { base_command: command, ..self }
    }

    fn with_defaults_from(self, server: bool) -> (r: Self)
        requires
            self.well_formed(),
        ensures
            r.well_formed(),
            r.base() == self.base(),
            with_defaults(
                self.commands(),
                r.commands(),
                if server {
                    |a: ServiceCommand| default_server_command(a)
                } else {
                    |a: ServiceCommand| default_client_command(a)
                },
            ),
    {
        let mut this = self;
        let ghost start = this.commands();
        let ghost defaults = if server {
            |a: ServiceCommand| default_server_command(a)
        } else {
            |a: ServiceCommand| default_client_command(a)
        };
        let ghost base0 = this.base();
        let mut i: usize = 0;
        while i < 13
            invariant
                this.well_formed(),
                this.base() == base0,
                forall|x: ServiceCommand| #[trigger] defaults(x) == if server {
                    default_server_command(x)
                } else {
                    default_client_command(x)
                },
                i <= 13,
                forall|a: ServiceCommand|
                    #[trigger] this.commands().dom().contains(a) <==> (start.dom().contains(a) || (
                    command_index(a) < i && defaults(a) is Some)),
                forall|a: ServiceCommand|
                    #[trigger] this.commands().dom().contains(a) ==> if command_index(a) < i && defaults(
                        a,
                    ) is Some {
                        defaults(a) == Some(this.commands()[a]@)
                    } else {
                        this.commands()[a] == start[a]
                    },
            decreases 13 - i,
        {
            let a = command_at(i);
            let c = if server {
                server_command_exec(a)
            } else {
                client_command_exec(a)
            };
            let ghost before = this.commands();
            proof {
                assert(c matches Some(cmd) ==> defaults(a) == Some(cmd@));
                assert(c is None ==> defaults(a) is None);
            }
            if let Some(cmd) = c {
                this.commands.insert(a, cmd);
            }
            proof {
                assert forall|x: ServiceCommand| #[trigger] this.commands().dom().contains(x) <==> (
                start.dom().contains(x) || (command_index(x) < i + 1 && defaults(x) is Some)) by {
                    if x != a {
                        assert(command_index(x) != command_index(a));
                    }
                }
                assert forall|x: ServiceCommand| #[trigger] this.commands().dom().contains(x) implies if command_index(x)
                    < i + 1 && defaults(x) is Some {
                    defaults(x) == Some(this.commands()[x]@)
                } else {
                    this.commands()[x] == start[x]
                } by {
                    if x != a {
                        assert(command_index(x) != command_index(a));
                        assert(this.commands()[x] == before[x]);
                    }
                }
            }
            i = i + 1;
        }
        proof {
            assert forall|a: ServiceCommand| #[trigger] this.commands().dom().contains(a) <==> (
            start.dom().contains(a) || defaults(a) is Some) by {
                assert(command_index(a) < 13);
            }
            assert forall|a: ServiceCommand| #[trigger] this.commands().dom().contains(a) implies if defaults(
                a,
            ) is Some {
                defaults(a) == Some(this.commands()[a]@)
            } else {
                this.commands()[a] == start[a]
            } by {
                assert(command_index(a) < 13);
            }
        }
        this
    }

    /// Adds the client commands: install, uninstall, start, info, pid, stop,
    /// restart, enable and disable, each as a visible subcommand with its
    /// help text.
    pub fn with_default_client_commands(self) -> (r: Self)
        requires
            self.well_formed(),
        ensures
            r.well_formed(),
            r.base() == self.base(),
            with_defaults(self.commands(), r.commands(), |a: ServiceCommand| default_client_command(a)),
    {
        self.with_defaults_from(false)
    }

    /// Adds the server commands: `run` as a hidden subcommand, and running
    /// directly when there is no argument.
    pub fn with_default_server_commands(self) -> (r: Self)
        requires
            self.well_formed(),
        ensures
            r.well_formed(),
            r.base() == self.base(),
            with_defaults(self.commands(), r.commands(), |a: ServiceCommand| default_server_command(a)),
    {
        self.with_defaults_from(true)
    }

    /// Sets how `action` is given, or drops it when `command_type` is `None`.
    pub fn with_action(self, action: ServiceCommand, command_type: Option<CommandType>) -> (r: Self)
        requires
            self.well_formed(),
        ensures
            r.well_formed(),
            r.base() == self.base(),
            r.commands() == match command_type {
                Some(c) => self.commands().insert(action, c),
                None => self.commands().remove(action),
            },
    {
        let mut this = self;
        match command_type {
            Some(c) => this.commands.insert(action, c),
            None => this.commands.remove(&action),
        }
        this
    }

    /// The commands, each action with how it is given.
    pub fn commands_list(&self) -> (r: Vec<&(ServiceCommand, CommandType)>)
        requires
            self.well_formed(),
        ensures
            forall|j: int|
                0 <= j < r@.len() ==> self.commands().dom().contains(#[trigger] r@[j].0)
                    && self.commands()[r@[j].0] == r@[j].1,
            forall|k: ServiceCommand| #[trigger] self.commands().dom().contains(k) ==> exists|j: int|
                0 <= j < r@.len() && #[trigger] r@[j].0 == k,
            forall|a: int, b: int| 0 <= a < b < r@.len() ==> #[trigger] r@[a].0 != #[trigger] r@[b].0,
    {
        self.commands.entries()
    }

    /// Gives up the base command, for the caller to extend and parse.
    pub fn into_parts(self) -> (r: (ClapCommand, KeyTable<ServiceCommand, CommandType>))
        ensures
            r.0 == self.base(),
            r.1.view() == self.commands(),
            self.well_formed() ==> r.1.well_formed(),
    {
        (self.base_command, self.commands)
    }
}

} // verus!
