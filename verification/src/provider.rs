//! What a command provider reports back to the command line.
use vstd::prelude::*;

verus! {

/// Who handles a matched command.
#[derive(Debug, Clone, Copy, PartialEq, Eq, Structural)]
pub enum CommandActionType {
    Server,
    Client,
    Other,
    Unknown,
}

/// What the server side is asked to do.
#[derive(Debug, Clone, Copy, PartialEq, Eq, Structural)]
pub enum ServerAction {
    Run,
    Direct,
}

/// A provider's answer when it recognises a command.
#[derive(Debug, Clone, Copy, PartialEq, Eq, Structural)]
pub struct CommandMatch {
    pub action_type: CommandActionType,
    pub action: Option<ServerAction>,
}

} // verus!

verus! {

/// How the command that runs the service is given on the command line.
#[derive(Debug, Clone, PartialEq, Eq)]
pub enum CommandArg {
    /// A subcommand with this name.
    Subcommand(String),
    /// A short flag, `-<c>`.
    ShortArg(char),
    /// A long flag, `--<name>`.
    LongArg(String),
}

/// The view of a `CommandArg`, with its names as text.
pub enum CommandArgView {
    Subcommand(Seq<char>),
    ShortArg(char),
    LongArg(Seq<char>),
}

impl View for CommandArg {
    type V = CommandArgView;

    open spec fn view(&self) -> CommandArgView {
        match self {
            CommandArg::Subcommand(s) => CommandArgView::Subcommand(s@),
            CommandArg::ShortArg(c) => CommandArgView::ShortArg(*c),
            CommandArg::LongArg(s) => CommandArgView::LongArg(s@),
        }
    }
}

impl CommandArg {
    pub fn clone_arg(&self) -> (r: CommandArg)
        ensures
            r@ == self@,
    {
        match self {
            CommandArg::Subcommand(s) => CommandArg::Subcommand(s.clone()),
            CommandArg::ShortArg(c) => CommandArg::ShortArg(*c),
            CommandArg::LongArg(s) => CommandArg::LongArg(s.clone()),
        }
    }
}

/// What a provider answers when asked to handle its input.
#[derive(Debug, Clone, PartialEq, Eq)]
pub enum CommandOutput {
    /// The input was handled, with this text to print, if any.
    Handled(Option<String>),
    /// The input was not for this provider.
    Unhandled,
}

/// Which provider's answer stands when the providers are asked in turn: the
/// first that handled the input (the later ones are not asked); `None` when
/// none did.
pub fn first_handled(answers: &Vec<CommandOutput>) -> (r: Option<usize>)
    ensures
        match r {
            Some(i) => i < answers@.len() && answers@[i as int] is Handled && forall|j: int|
                0 <= j < i ==> #[trigger] answers@[j] is Unhandled,
            None => forall|j: int| 0 <= j < answers@.len() ==> #[trigger] answers@[j] is Unhandled,
        },
{
    let mut i: usize = 0;
    while i < answers.len()
        invariant
            i <= answers@.len(),
            forall|j: int| 0 <= j < i ==> #[trigger] answers@[j] is Unhandled,
        decreases answers@.len() - i,
    {
        if let CommandOutput::Handled(_) = &answers[i] {
            return Some(i);
        }
        i = i + 1;
    }
    None
}

} // verus!
