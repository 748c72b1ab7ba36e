//! The table of the commands a service offers.
use vstd::prelude::*;

use crate::text::opt_view;

use super::table::{KeyTable, TableKey};
use super::{command_index, command_name, Command, ServiceCommand};

verus! {

/// The view of a `Command`, with its texts as character sequences.
pub enum CommandView {
    Arg { short: Option<char>, long: Option<Seq<char>>, help_text: Option<Seq<char>> },
    Subcommand { name: Seq<char>, help_text: Seq<char> },
    Default,
}

impl View for Command {
    type V = CommandView;

    open spec fn view(&self) -> CommandView {
        match self {
            Command::Arg { short, long, help_text } => CommandView::Arg {
                short: *short,
                long: opt_view(*long),
                help_text: opt_view(*help_text),
            },
            Command::Subcommand { name, help_text } => CommandView::Subcommand {
                name: name@,
                help_text: help_text@,
            },
            Command::Default => CommandView::Default,
        }
    }
}

/// The help text of each client command.
pub open spec fn client_help(c: ServiceCommand) -> Option<Seq<char>> {
    match c {
        ServiceCommand::Install => Some("Install the service using the system's service manager"@),
        ServiceCommand::Uninstall => Some("Uninstall the service from the system's service manager"@),
        ServiceCommand::Start => Some("Start the service"@),
        ServiceCommand::Info => Some("Get the service's current status"@),
        ServiceCommand::Pid => Some("Get the service's current PID"@),
        ServiceCommand::Stop => Some("Stop the service"@),
        ServiceCommand::Restart => Some("Restart the service"@),
        ServiceCommand::Enable => Some("Enable autostart"@),
        ServiceCommand::Disable => Some("Disable autostart"@),
        ServiceCommand::Console => Some("View service console"@),
        _ => None,
    }
}

/// The command each service command is given as by default: client commands
/// as subcommands with their help text, `run` as a subcommand without help,
/// and running directly as the command line with no arguments.
pub open spec fn default_command(c: ServiceCommand, enable_client: bool, enable_server: bool) -> Option<CommandView> {
    if enable_client && client_help(c) is Some {
        Some(CommandView::Subcommand { name: command_name(c), help_text: client_help(c)->0 })
    } else if enable_server && c == ServiceCommand::Run {
        Some(CommandView::Subcommand { name: command_name(c), help_text: Seq::empty() })
    } else if enable_server && c == ServiceCommand::Direct {
        Some(CommandView::Default)
    } else {
        None
    }
}

fn client_help_exec(c: ServiceCommand) -> (r: Option<&'static str>)
    ensures
        match r {
            Some(s) => client_help(c) == Some(s@),
            None => client_help(c) is None,
        },
{
    match c {
        ServiceCommand::Install => Some("Install the service using the system's service manager"),
        ServiceCommand::Uninstall => Some("Uninstall the service from the system's service manager"),
        ServiceCommand::Start => Some("Start the service"),
        ServiceCommand::Info => Some("Get the service's current status"),
        ServiceCommand::Pid => Some("Get the service's current PID"),
        ServiceCommand::Stop => Some("Stop the service"),
        ServiceCommand::Restart => Some("Restart the service"),
        ServiceCommand::Enable => Some("Enable autostart"),
        ServiceCommand::Disable => Some("Disable autostart"),
        ServiceCommand::Console => Some("View service console"),
        _ => None,
    }
}

fn default_command_exec(c: ServiceCommand, enable_client: bool, enable_server: bool) -> (r: Option<Command>)
    ensures
        match r {
            Some(cmd) => default_command(c, enable_client, enable_server) == Some(cmd@),
            None => default_command(c, enable_client, enable_server) is None,
        },
{
    if enable_client {
        if let Some(help) = client_help_exec(c) {
            return Some(Command::Subcommand { name: c.to_string(), help_text: help.to_owned() });
        }
    }
    if enable_server && c == ServiceCommand::Run {
        let empty = "";
        proof {
            reveal_strlit("");
            assert(empty@ =~= Seq::<char>::empty());
        }
        let r = Command::Subcommand { name: c.to_string(), help_text: empty.to_owned() };
        assert(r@ == CommandView::Subcommand { name: command_name(c), help_text: Seq::<char>::empty() });
        return Some(r);
    }
    if enable_server && c == ServiceCommand::Direct {
        return Some(Command::Default);
    }
    None
}

pub(crate) fn command_at(i: usize) -> (r: ServiceCommand)
    requires
        i < 13,
    ensures
        command_index(r) == i,
{
    if i == 0 {
        ServiceCommand::Install
    } else if i == 1 {
        ServiceCommand::Uninstall
    } else if i == 2 {
        ServiceCommand::Run
    } else if i == 3 {
        ServiceCommand::Direct
    } else if i == 4 {
        ServiceCommand::Info
    } else if i == 5 {
        ServiceCommand::Start
    } else if i == 6 {
        ServiceCommand::Stop
    } else if i == 7 {
        ServiceCommand::Restart
    } else if i == 8 {
        ServiceCommand::Enable
    } else if i == 9 {
        ServiceCommand::Disable
    } else if i == 10 {
        ServiceCommand::Pid
    } else if i == 11 {
        ServiceCommand::Health
    } else {
        ServiceCommand::Console
    }
}

/// The commands a service offers, each with how it is given.
pub struct Commands(KeyTable<ServiceCommand, Command>);

impl Commands {
    pub closed spec fn well_formed(self) -> bool {
        self.0.well_formed()
    }

    pub closed spec fn view(self) -> Map<ServiceCommand, Command> {
        self.0.view()
    }

    /// The default commands: the client commands when `enable_client`, the
    /// server commands when `enable_server`.
    pub fn new(enable_client: bool, enable_server: bool) -> (r: Self)
        ensures
            r.well_formed(),
            forall|c: ServiceCommand| #[trigger] r.view().dom().contains(c) <==> default_command(
                c,
                enable_client,
                enable_server,
            ) is Some,
            forall|c: ServiceCommand| #[trigger] r.view().dom().contains(c) ==> default_command(
                c,
                enable_client,
                enable_server,
            ) == Some(r.view()[c]@),
    {
        let mut table: KeyTable<ServiceCommand, Command> = KeyTable::new();
        let mut i: usize = 0;
        while i < 13
            invariant
                table.well_formed(),
                i <= 13,
                forall|c: ServiceCommand| #[trigger] table.view().dom().contains(c) ==> command_index(c) < i,
                forall|c: ServiceCommand|
                    command_index(c) < i ==> (#[trigger] table.view().dom().contains(c)
                        <==> default_command(c, enable_client, enable_server) is Some),
                forall|c: ServiceCommand| #[trigger] table.view().dom().contains(c) ==> default_command(
                    c,
                    enable_client,
                    enable_server,
                ) == Some(table.view()[c]@),
            decreases 13 - i,
        {
            let c = command_at(i);
            if let Some(cmd) = default_command_exec(c, enable_client, enable_server) {
                table.insert(c, cmd);
            }
            i = i + 1;
        }
        Commands(table)
    }

    /// Sets how `key` is given.
    pub fn insert(&mut self, key: ServiceCommand, value: Command)
        requires
            old(self).well_formed(),
        ensures
            final(self).well_formed(),
            final(self).view() == old(self).view().insert(key, value),
    {
        self.0.insert(key, value);
    }

    /// Drops `key`.
    pub fn remove(&mut self, key: &ServiceCommand)
        requires
            old(self).well_formed(),
        ensures
            final(self).well_formed(),
            final(self).view() == old(self).view().remove(*key),
    {
        self.0.remove(key);
    }

    /// How `key` is given, if it is offered.
    pub fn get(&self, key: &ServiceCommand) -> (r: Option<&Command>)
        requires
            self.well_formed(),
        ensures
            match r {
                Some(v) => self.view().dom().contains(*key) && *v == self.view()[*key],
                None => !self.view().dom().contains(*key),
            },
    {
        self.0.get(key)
    }

    /// Every command offered, with how it is given.
    pub fn iter(&self) -> (r: Vec<&(ServiceCommand, Command)>)
        requires
            self.well_formed(),
        ensures
            forall|j: int|
                0 <= j < r@.len() ==> self.view().dom().contains(#[trigger] r@[j].0) && self.view()[r@[j].0]
                    == r@[j].1,
            forall|k: ServiceCommand| #[trigger] self.view().dom().contains(k) ==> exists|j: int|
                0 <= j < r@.len() && #[trigger] r@[j].0 == k,
            forall|a: int, b: int| 0 <= a < b < r@.len() ==> #[trigger] r@[a].0 != #[trigger] r@[b].0,
    {
        self.0.entries()
    }
}

/// `s` begins with `p`.
pub open spec fn starts_with(s: Seq<char>, p: Seq<char>) -> bool {
    p.len() <= s.len() && s.subrange(0, p.len() as int) == p
}

/// How the run command is given, read off the arguments the service manager
/// starts the service with: none at all means the bare command line runs the
/// service, and running directly becomes the `direct` subcommand; a first
/// argument `--...` is a long flag spelled as that argument; a first argument
/// `-x...` is the short flag `x`; any other first argument gives no run
/// command.
pub open spec fn run_commands_for(service_args: Seq<Seq<char>>) -> Seq<(ServiceCommand, CommandView)> {
    if service_args.len() == 0 {
        seq![
            (ServiceCommand::Run, CommandView::Default),
            (
                ServiceCommand::Direct,
                CommandView::Subcommand { name: "direct"@, help_text: "Run the service directly"@ },
            ),
        ]
    } else {
        let first = service_args[0];
        if starts_with(first, seq!['-', '-']) {
            seq![
                (
                    ServiceCommand::Run,
                    CommandView::Arg { short: None, long: Some(first), help_text: None },
                ),
            ]
        } else if starts_with(first, seq!['-']) {
            seq![
                (
                    ServiceCommand::Run,
                    CommandView::Arg { short: Some(first[1]), long: None, help_text: None },
                ),
            ]
        } else {
            seq![]
        }
    }
}

impl Commands {
    /// Adds the run command (and, with no service arguments, the direct
    /// command) as `run_commands_for` gives them, replacing what they were.
    pub fn add_run_commands(&mut self, service_args: &Vec<String>)
        requires
            old(self).well_formed(),
            service_args@.len() > 0 ==> service_args@[0]@ != seq!['-'],
        ensures
            final(self).well_formed(),
            ({
                let added = run_commands_for(service_args@.map_values(|s: String| s@));
                &&& forall|c: ServiceCommand| #[trigger] final(self).view().dom().contains(c) <==> (old(self).view().dom().contains(c)
                    || exists|j: int| 0 <= j < added.len() && added[j].0 == c)
                &&& forall|j: int| 0 <= j < added.len() ==> final(self).view()[#[trigger] added[j].0]@ == added[j].1
                &&& forall|c: ServiceCommand|
                    #[trigger] final(self).view().dom().contains(c) && (forall|j: int| 0 <= j < added.len() ==> added[j].0 != c)
                        ==> final(self).view()[c] == old(self).view()[c]
            }),
    {
        let ghost args = service_args@.map_values(|s: String| s@);
        let ghost start = self.view();
        if service_args.len() == 0 {
            let direct = "direct";
            let help = "Run the service directly";
            self.insert(ServiceCommand::Run, Command::Default);
            self.insert(
                ServiceCommand::Direct,
                Command::Subcommand { name: direct.to_owned(), help_text: help.to_owned() },
            );
            proof {
                let added = run_commands_for(args);
                assert(added[0].0 == ServiceCommand::Run);
                assert(added[1].0 == ServiceCommand::Direct);
            }
        } else {
            let first = &service_args[0];
            let n = first.as_str().unicode_len();
            let dd = "--";
            let d = "-";
            proof {
                reveal_strlit("--");
                reveal_strlit("-");
                assert(dd@ =~= seq!['-', '-']);
                assert(d@ =~= seq!['-']);
                assert(args[0] == first@);
            }
            if crate::network::grammar::text_at(first.as_str(), 0, dd) {
                self.insert(
                    ServiceCommand::Run,
                    Command::Arg { short: None, long: Some(first.clone()), help_text: None },
                );
                proof {
                    let added = run_commands_for(args);
                    assert(added[0].0 == ServiceCommand::Run);
                    assert(first@.subrange(0, 2) == seq!['-', '-']);
                }
            } else if crate::network::grammar::text_at(first.as_str(), 0, d) {
                proof {
                    if n < 2 {
                        assert(first@ =~= seq!['-']);
                    }
                }
                let c = first.as_str().get_char(1);
                self.insert(ServiceCommand::Run, Command::Arg { short: Some(c), long: None, help_text: None });
                proof {
                    let added = run_commands_for(args);
                    assert(added[0].0 == ServiceCommand::Run);
                    assert(first@.subrange(0, 1) == seq!['-']);
                }
            } else {
                proof {
                    let added = run_commands_for(args);
                    assert(added.len() == 0);
                }
            }
        }
    }
}

} // verus!
