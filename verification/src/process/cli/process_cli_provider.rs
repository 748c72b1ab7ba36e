//! The first form of the `process` command provider, which reads its command
//! again when it handles the input.
use vstd::prelude::*;

use super::{process_step, process_step_exec, ProcessStep, ProcessSubcommand};
use crate::provider::{CommandActionType, CommandMatch};

verus! {

/// Provides the `process` command for the service's process.
#[derive(Debug, Clone, Copy, PartialEq, Eq, Structural)]
pub struct ProcessCliProvider {
    pid: Option<u32>,
}

impl ProcessCliProvider {
    pub closed spec fn pid(self) -> Option<u32> {
        self.pid
    }

    pub fn new(pid: Option<u32>) -> (r: Self)
        ensures
            r.pid() == pid,
    {
        ProcessCliProvider { pid }
    }

    /// A `process` command read from the arguments is handled on the client
    /// side.
    pub fn matches(&self, command: Option<ProcessSubcommand>) -> (r: Option<CommandMatch>)
        ensures
            r == match command {
                Some(_) => Some(CommandMatch { action_type: CommandActionType::Client, action: None }),
                None => None,
            },
    {
        match command {
            Some(_) => Some(CommandMatch { action_type: CommandActionType::Client, action: None }),
            None => None,
        }
    }

    /// What handling the command read from the arguments amounts to.
    pub fn handle_input(&self, command: Option<ProcessSubcommand>) -> (r: ProcessStep)
        ensures
            r == process_step(command, self.pid()),
    {
        process_step_exec(command, self.pid)
    }
}

/// The output of `process kill` in this form of the provider.
pub fn killed_message() -> (r: String)
    ensures
        r@ == "Process killed"@,
{
    "Process killed".to_owned()
}

} // verus!
