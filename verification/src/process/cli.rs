//! The `process` command: what it does once the arguments are read.
use vstd::prelude::*;

use crate::provider::{CommandActionType, CommandMatch};

pub mod process_cli_provider;

verus! {

/// The `process` subcommands.
#[derive(Debug, Clone, Copy, PartialEq, Eq, Structural)]
pub enum ProcessSubcommand {
    /// Show process info
    Info,
    /// Force kill the service process
    Kill,
}

/// What the provider does when asked to handle its input.
#[derive(Debug, Clone, Copy, PartialEq, Eq, Structural)]
pub enum ProcessStep {
    /// No `process` command was matched.
    Unhandled,
    /// A command was matched but the service is not running.
    NotRunning,
    /// Show the information of the process with this id.
    ShowInfo(u32),
    /// Kill the process with this id.
    Kill(u32),
}

/// The step for a matched command and the id of the service's process.
pub open spec fn process_step(command: Option<ProcessSubcommand>, pid: Option<u32>) -> ProcessStep {
    match (command, pid) {
        (None, _) => ProcessStep::Unhandled,
        (Some(_), None) => ProcessStep::NotRunning,
        (Some(ProcessSubcommand::Info), Some(p)) => ProcessStep::ShowInfo(p),
        (Some(ProcessSubcommand::Kill), Some(p)) => ProcessStep::Kill(p),
    }
}

pub fn process_step_exec(command: Option<ProcessSubcommand>, pid: Option<u32>) -> (r: ProcessStep)
    ensures
        r == process_step(command, pid),
{
    match (command, pid) {
        (None, _) => ProcessStep::Unhandled,
        (Some(_), None) => ProcessStep::NotRunning,
        (Some(ProcessSubcommand::Info), Some(p)) => ProcessStep::ShowInfo(p),
        (Some(ProcessSubcommand::Kill), Some(p)) => ProcessStep::Kill(p),
    }
}

/// Provides the `process` command for the service's process.
#[derive(Debug, Clone, Copy, PartialEq, Eq, Structural)]
pub struct ProcessCliProvider {
    pid: Option<u32>,
    matched_args: Option<ProcessSubcommand>,
}

impl ProcessCliProvider {
    pub closed spec fn pid(self) -> Option<u32> {
        self.pid
    }

    pub closed spec fn matched(self) -> Option<ProcessSubcommand> {
        self.matched_args
    }

    pub fn new(pid: Option<u32>) -> (r: Self)
        ensures
            r.pid() == pid,
            r.matched() is None,
    {
        ProcessCliProvider { pid, matched_args: None }
    }

    /// Records the command read from the arguments, if it is a `process`
    /// command; the command is handled on the client side.
    pub fn matches(&mut self, command: Option<ProcessSubcommand>) -> (r: Option<CommandMatch>)
        ensures
            match command {
                Some(c) => {
                    &&& final(self).matched() == Some(c)
                    &&& final(self).pid() == old(self).pid()
                    &&& r == Some(CommandMatch { action_type: CommandActionType::Client, action: None })
                },
                None => r is None && *final(self) == *old(self),
            },
    {
        match command {
            Some(c) => {
                self.matched_args = Some(c);
                Some(CommandMatch { action_type: CommandActionType::Client, action: None })
            },
            None => None,
        }
    }

    /// What handling the input amounts to.
    pub fn handle_input(&self) -> (r: ProcessStep)
        ensures
            r == process_step(self.matched(), self.pid()),
    {
        process_step_exec(self.matched_args, self.pid)
    }
}

/// The message when the service's process is not running.
pub fn not_running_message() -> (r: String)
    ensures
        r@ == "Error: process is not running"@,
{
    "Error: process is not running".to_owned()
}

/// The output of `process info`: the process's description, or a note that
/// the process was not found.
pub fn info_message(description: Option<String>) -> (r: String)
    ensures
        r@ == match description {
            Some(d) => d@,
            None => "Process not found"@,
        },
{
    match description {
        Some(d) => d,
        None => "Process not found".to_owned(),
    }
}

/// The output of `process kill` for the outcome of the kill: sent, failed to
/// send, or no such process.
pub fn kill_message(outcome: Option<bool>) -> (r: String)
    ensures
        r@ == match outcome {
            Some(true) => "Kill signal sent"@,
            Some(false) => "Failed to send kill signal"@,
            None => "Process not found"@,
        },
{
    let m = match outcome {
        Some(true) => "Kill signal sent",
        Some(false) => "Failed to send kill signal",
        None => "Process not found",
    };
    m.to_owned()
}

} // verus!
