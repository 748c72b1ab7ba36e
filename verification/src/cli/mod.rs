//! The command line of a service: its commands, how they are named and how a
//! parsed command line is told apart.
use vstd::prelude::*;

use crate::text::opt_view;

pub mod builder;
pub mod commands;
pub mod table;

use table::TableKey;

verus! {

/// Which side of the service a command line is for.
#[derive(Debug, Clone, Copy, PartialEq, Eq, Structural)]
pub enum ActionType {
    Server,
    Client,
    Unknown,
}

/// The side a command line is for, with the service command it names.
#[derive(Debug, Clone, Copy, PartialEq, Eq, Structural)]
pub struct Action {
    pub action_type: ActionType,
    pub command: Option<ServiceCommand>,
}

/// The commands of a service.
#[derive(Debug, Clone, Copy, PartialEq, Eq, Structural, Hash)]
pub enum ServiceCommand {
    Install,
    Uninstall,
    Run,
    Direct,
    Info,
    Start,
    Stop,
    Restart,
    Enable,
    Disable,
    Pid,
    Health,
    Console,
}

/// The name each command is given on the command line.
pub open spec fn command_name(c: ServiceCommand) -> Seq<char> {
    match c {
        ServiceCommand::Install => "install"@,
        ServiceCommand::Uninstall => "uninstall"@,
        ServiceCommand::Run => "run"@,
        ServiceCommand::Direct => "direct"@,
        ServiceCommand::Info => "info"@,
        ServiceCommand::Start => "start"@,
        ServiceCommand::Stop => "stop"@,
        ServiceCommand::Restart => "restart"@,
        ServiceCommand::Enable => "enable"@,
        ServiceCommand::Disable => "disable"@,
        ServiceCommand::Pid => "pid"@,
        ServiceCommand::Health => "health"@,
        ServiceCommand::Console => "console"@,
    }
}

impl ServiceCommand {
    /// The command's name on the command line.
    pub fn as_str(&self) -> (r: &'static str)
        ensures
            r@ == command_name(*self),
    {
        match self {
            ServiceCommand::Install => "install",
            ServiceCommand::Uninstall => "uninstall",
            ServiceCommand::Run => "run",
            ServiceCommand::Direct => "direct",
            ServiceCommand::Info => "info",
            ServiceCommand::Start => "start",
            ServiceCommand::Stop => "stop",
            ServiceCommand::Restart => "restart",
            ServiceCommand::Enable => "enable",
            ServiceCommand::Disable => "disable",
            ServiceCommand::Pid => "pid",
            ServiceCommand::Health => "health",
            ServiceCommand::Console => "console",
        }
    }

    /// The command's name on the command line, as an owned string.
    pub fn to_string(&self) -> (r: String)
        ensures
            r@ == command_name(*self),
    {
        self.as_str().to_owned()
    }
}

/// Law: different commands have different names, so a name read from the
/// command line names one command.
pub proof fn law_command_names_distinct(a: ServiceCommand, b: ServiceCommand)
    ensures
        command_name(a) == command_name(b) <==> a == b,
{
    reveal_strlit("install");
    reveal_strlit("uninstall");
    reveal_strlit("run");
    reveal_strlit("direct");
    reveal_strlit("info");
    reveal_strlit("start");
    reveal_strlit("stop");
    reveal_strlit("restart");
    reveal_strlit("enable");
    reveal_strlit("disable");
    reveal_strlit("pid");
    reveal_strlit("health");
    reveal_strlit("console");
    if command_name(a) == command_name(b) && a != b {
        let x = command_name(a);
        assert(x.len() == command_name(b).len());
        assert(x[0] == command_name(b)[0]);
        assert(x[1] == command_name(b)[1]);
        assert(x[2] == command_name(b)[2]);
    }
}

pub open spec fn command_index(c: ServiceCommand) -> nat {
    match c {
        ServiceCommand::Install => 0,
        ServiceCommand::Uninstall => 1,
        ServiceCommand::Run => 2,
        ServiceCommand::Direct => 3,
        ServiceCommand::Info => 4,
        ServiceCommand::Start => 5,
        ServiceCommand::Stop => 6,
        ServiceCommand::Restart => 7,
        ServiceCommand::Enable => 8,
        ServiceCommand::Disable => 9,
        ServiceCommand::Pid => 10,
        ServiceCommand::Health => 11,
        ServiceCommand::Console => 12,
    }
}

impl TableKey for ServiceCommand {
    open spec fn key_index(self) -> nat {
        command_index(self)
    }

    open spec fn key_count() -> nat {
        13
    }

    proof fn lemma_key_index(k1: Self, k2: Self) {
    }

    fn index(&self) -> (r: usize) {
        match self {
            ServiceCommand::Install => 0,
            ServiceCommand::Uninstall => 1,
            ServiceCommand::Run => 2,
            ServiceCommand::Direct => 3,
            ServiceCommand::Info => 4,
            ServiceCommand::Start => 5,
            ServiceCommand::Stop => 6,
            ServiceCommand::Restart => 7,
            ServiceCommand::Enable => 8,
            ServiceCommand::Disable => 9,
            ServiceCommand::Pid => 10,
            ServiceCommand::Health => 11,
            ServiceCommand::Console => 12,
        }
    }

    fn count() -> (r: usize) {
        13
    }
}

/// How a command is given on the command line.
#[derive(Debug, Clone, PartialEq, Eq)]
pub enum Command {
    /// A flag, short, long or both.
    Arg { short: Option<char>, long: Option<String>, help_text: Option<String> },
    /// A subcommand.
    Subcommand { name: String, help_text: String },
    /// The command line with no argument at all.
    Default,
}

/// What a parsed command line says about one command.
pub struct ArgState {
    /// The flag of the command's name was given (for flag commands).
    pub flag_given: bool,
    /// The name of the subcommand given, if any.
    pub subcommand: Option<String>,
    /// Whether any argument was given.
    pub args_present: bool,
}

/// Whether the command line selects a command named `name` that is given as
/// `cmd`: a flag when its flag is set, a subcommand when it is the subcommand
/// given, the default when there is neither argument nor subcommand.
pub open spec fn command_matches(cmd: Command, name: Seq<char>, state: ArgState) -> bool {
    match cmd {
        Command::Arg { .. } => state.flag_given,
        Command::Subcommand { .. } => opt_view(state.subcommand) == Some(name),
        Command::Default => !state.args_present && state.subcommand is None,
    }
}

pub fn matches_command(state: &ArgState, cmd: &Command, cmd_name: &str) -> (r: bool)
    ensures
        r == command_matches(*cmd, cmd_name@, *state),
{
    match cmd {
        Command::Arg { .. } => state.flag_given,
        Command::Subcommand { .. } => match &state.subcommand {
            Some(s) => str_equal(s.as_str(), cmd_name),
            None => false,
        },
        Command::Default => !state.args_present && state.subcommand.is_none(),
    }
}

/// Whether two strings hold the same characters.
pub fn str_equal(a: &str, b: &str) -> (r: bool)
    ensures
        r == (a@ == b@),
{
    let n = a.unicode_len();
    if n != b.unicode_len() {
        return false;
    }
    let mut i: usize = 0;
    while i < n
        invariant
            n == a@.len(),
            n == b@.len(),
            i <= n,
            forall|j: int| 0 <= j < i ==> a@[j] == b@[j],
        decreases n - i,
    {
        if a.get_char(i) != b.get_char(i) {
            return false;
        }
        i = i + 1;
    }
    assert(a@ =~= b@);
    true
}

/// The side the first provider that recognises the command line is for;
/// `Unknown` when none does.
pub open spec fn first_known(types: Seq<ActionType>) -> ActionType
    decreases types.len(),
{
    if types.len() == 0 {
        ActionType::Unknown
    } else if types[0] != ActionType::Unknown {
        types[0]
    } else {
        first_known(types.drop_first())
    }
}

/// Picks the side of the command line from what each provider, in order,
/// says it is.
pub fn action_type(types: &Vec<ActionType>) -> (r: ActionType)
    ensures
        r == first_known(types@),
{
    let mut i: usize = 0;
    assert(types@.skip(0) =~= types@);
    while i < types.len()
        invariant
            i <= types@.len(),
            first_known(types@) == first_known(types@.skip(i as int)),
        decreases types.len() - i,
    {
        if types[i] != ActionType::Unknown {
            proof {
                assert(types@.skip(i as int)[0] == types@[i as int]);
            }
            return types[i];
        }
        proof {
            assert(types@.skip(i as int).drop_first() =~= types@.skip(i + 1));
        }
        i = i + 1;
    }
    assert(types@.skip(i as int) =~= Seq::<ActionType>::empty());
    ActionType::Unknown
}

/// What the client side asks of the service manager.
#[derive(Debug, Clone, Copy, PartialEq, Eq, Structural)]
pub enum ClientRequest {
    Install,
    Uninstall,
    Info,
    Pid,
    Start,
    Stop,
    Restart,
    SetAutostart(bool),
    Console,
}

/// The request each client command makes; server commands and `health`
/// make none.
pub open spec fn client_request(c: ServiceCommand) -> Option<ClientRequest> {
    match c {
        ServiceCommand::Install => Some(ClientRequest::Install),
        ServiceCommand::Uninstall => Some(ClientRequest::Uninstall),
        ServiceCommand::Info => Some(ClientRequest::Info),
        ServiceCommand::Pid => Some(ClientRequest::Pid),
        ServiceCommand::Start => Some(ClientRequest::Start),
        ServiceCommand::Stop => Some(ClientRequest::Stop),
        ServiceCommand::Restart => Some(ClientRequest::Restart),
        ServiceCommand::Enable => Some(ClientRequest::SetAutostart(true)),
        ServiceCommand::Disable => Some(ClientRequest::SetAutostart(false)),
        ServiceCommand::Console => Some(ClientRequest::Console),
        _ => None,
    }
}

pub fn client_request_for(c: ServiceCommand) -> (r: Option<ClientRequest>)
    ensures
        r == client_request(c),
{
    match c {
        ServiceCommand::Install => Some(ClientRequest::Install),
        ServiceCommand::Uninstall => Some(ClientRequest::Uninstall),
        ServiceCommand::Info => Some(ClientRequest::Info),
        ServiceCommand::Pid => Some(ClientRequest::Pid),
        ServiceCommand::Start => Some(ClientRequest::Start),
        ServiceCommand::Stop => Some(ClientRequest::Stop),
        ServiceCommand::Restart => Some(ClientRequest::Restart),
        ServiceCommand::Enable => Some(ClientRequest::SetAutostart(true)),
        ServiceCommand::Disable => Some(ClientRequest::SetAutostart(false)),
        ServiceCommand::Console => Some(ClientRequest::Console),
        _ => None,
    }
}

/// The side a matched command is for: `run` and `direct` are the server's,
/// the commands that make a client request are the client's.
pub fn command_action_type(c: ServiceCommand) -> (r: ActionType)
    ensures
        r == if c == ServiceCommand::Run || c == ServiceCommand::Direct {
            ActionType::Server
        } else if client_request(c) is Some {
            ActionType::Client
        } else {
            ActionType::Unknown
        },
{
    if c == ServiceCommand::Run || c == ServiceCommand::Direct {
        ActionType::Server
    } else if client_request_for(c).is_some() {
        ActionType::Client
    } else {
        ActionType::Unknown
    }
}

/// The output of `pid`: the process id in decimal, or nothing when the
/// service is not running.
pub fn pid_output(pid: Option<u32>) -> (r: String)
    ensures
        r@ == match pid {
            Some(p) => crate::text::dec_text(p as nat),
            None => Seq::empty(),
        },
{
    let mut r = String::new();
    if let Some(p) = pid {
        crate::text::append_decimal(&mut r, p as u64);
    }
    proof {
        assert(r@ =~= match pid {
            Some(p) => crate::text::dec_text(p as nat),
            None => Seq::<char>::empty(),
        });
    }
    r
}

/// Law: each client command makes the request of its own name (`enable` and
/// `disable` set autostart on and off), the server commands and `health`
/// make none, and no two commands make the same request.
pub proof fn law_client_requests(a: ServiceCommand, b: ServiceCommand)
    ensures
        client_request(ServiceCommand::Install) == Some(ClientRequest::Install),
        client_request(ServiceCommand::Uninstall) == Some(ClientRequest::Uninstall),
        client_request(ServiceCommand::Info) == Some(ClientRequest::Info),
        client_request(ServiceCommand::Pid) == Some(ClientRequest::Pid),
        client_request(ServiceCommand::Start) == Some(ClientRequest::Start),
        client_request(ServiceCommand::Stop) == Some(ClientRequest::Stop),
        client_request(ServiceCommand::Restart) == Some(ClientRequest::Restart),
        client_request(ServiceCommand::Enable) == Some(ClientRequest::SetAutostart(true)),
        client_request(ServiceCommand::Disable) == Some(ClientRequest::SetAutostart(false)),
        client_request(ServiceCommand::Console) == Some(ClientRequest::Console),
        client_request(a) is None <==> (a == ServiceCommand::Run || a == ServiceCommand::Direct || a
            == ServiceCommand::Health),
        client_request(a) is Some && client_request(a) == client_request(b) ==> a == b,
{
}

} // verus!
