//! Notifications and dialogs shown to the user, and the command lines that
//! show them from a process running as the user.
use vstd::prelude::*;

use core::time::Duration;

pub mod cli;
pub mod dialog;
pub mod notification;

verus! {

/// Turns the events of a store into notifications. `E` is the event store,
/// `F` makes the notification for an event, if any.
pub struct NotificationService<E, F> {
    event_store: E,
    create_notification: F,
    shutdown_timeout: Option<Duration>,
}

impl<E, F> NotificationService<E, F> {
    pub closed spec fn event_store(self) -> E {
        self.event_store
    }

    pub closed spec fn create_notification(self) -> F {
        self.create_notification
    }

    pub closed spec fn shutdown_timeout(self) -> Option<Duration> {
        self.shutdown_timeout
    }

    /// A service with no shutdown timeout: events that arrive after the
    /// service is asked to stop are dropped.
    pub fn new(event_store: E, create_notification: F) -> (r: Self)
        ensures
            r.event_store() == event_store,
            r.create_notification() == create_notification,
            r.shutdown_timeout() is None,
    {
        NotificationService { event_store, create_notification, shutdown_timeout: None }
    }

    /// Waits up to `timeout` for one more event after the service is asked
    /// to stop.
    pub fn with_shutdown_timeout(self, timeout: Duration) -> (r: Self)
        ensures
            r.event_store() == self.event_store(),
            r.create_notification() == self.create_notification(),
            r.shutdown_timeout() == Some(timeout),
    {
        NotificationService { shutdown_timeout: Some(timeout), ..self }
    }

    /// Gives the parts back, for the loop that runs the service.
    pub fn into_parts(self) -> (r: (E, F, Option<Duration>))
        ensures
            r == (self.event_store(), self.create_notification(), self.shutdown_timeout()),
    {
        (self.event_store, self.create_notification, self.shutdown_timeout)
    }
}

/// Where the notification loop is: taking events; after being asked to
/// stop, waiting for one last event; finished.
#[derive(Debug, Clone, Copy, PartialEq, Eq, Structural)]
pub enum NotifierPhase {
    Running,
    Lingering,
    Done,
}

/// What happens to the notification loop.
#[derive(Debug, Clone, PartialEq, Eq)]
pub enum NotifierInput<T> {
    /// The store gave an event.
    Event(T),
    /// The service was asked to stop, or the store has no more events.
    Stopped,
    /// The last wait after stopping ran out.
    TimedOut,
}

/// What the loop does next.
#[derive(Debug, Clone, Copy, PartialEq, Eq, Structural)]
pub enum NotifierCommand {
    /// Wait for the next event.
    Wait,
    /// Wait for one more event, for the shutdown timeout.
    WaitWithTimeout,
    /// The loop is over.
    Finish,
}

/// The loop's step: every event while running is handed to the notification
/// maker; on stopping the loop waits for one more event if there is a
/// shutdown timeout and finishes otherwise; that last event, if it comes in
/// time, is handed over too; then the loop finishes.
pub open spec fn notifier_next<T>(phase: NotifierPhase, has_timeout: bool, input: NotifierInput<T>) -> (
    NotifierPhase,
    Option<T>,
    NotifierCommand,
) {
    match (phase, input) {
        (NotifierPhase::Running, NotifierInput::Event(e)) => (NotifierPhase::Running, Some(e), NotifierCommand::Wait),
        (NotifierPhase::Running, NotifierInput::Stopped) => if has_timeout {
            (NotifierPhase::Lingering, None, NotifierCommand::WaitWithTimeout)
        } else {
            (NotifierPhase::Done, None, NotifierCommand::Finish)
        },
        (NotifierPhase::Running, NotifierInput::TimedOut) => (NotifierPhase::Running, None, NotifierCommand::Wait),
        (NotifierPhase::Lingering, NotifierInput::Event(e)) => (NotifierPhase::Done, Some(e), NotifierCommand::Finish),
        (NotifierPhase::Lingering, _) => (NotifierPhase::Done, None, NotifierCommand::Finish),
        (NotifierPhase::Done, _) => (NotifierPhase::Done, None, NotifierCommand::Finish),
    }
}

/// The loop's step, as `notifier_next` gives it.
pub fn notifier_step<T>(phase: NotifierPhase, has_timeout: bool, input: NotifierInput<T>) -> (r: (
    NotifierPhase,
    Option<T>,
    NotifierCommand,
))
    ensures
        r == notifier_next(phase, has_timeout, input),
{
    match (phase, input) {
        (NotifierPhase::Running, NotifierInput::Event(e)) => (NotifierPhase::Running, Some(e), NotifierCommand::Wait),
        (NotifierPhase::Running, NotifierInput::Stopped) => if has_timeout {
            (NotifierPhase::Lingering, None, NotifierCommand::WaitWithTimeout)
        } else {
            (NotifierPhase::Done, None, NotifierCommand::Finish)
        },
        (NotifierPhase::Running, NotifierInput::TimedOut) => (NotifierPhase::Running, None, NotifierCommand::Wait),
        (NotifierPhase::Lingering, NotifierInput::Event(e)) => (NotifierPhase::Done, Some(e), NotifierCommand::Finish),
        (NotifierPhase::Lingering, _) => (NotifierPhase::Done, None, NotifierCommand::Finish),
        (NotifierPhase::Done, _) => (NotifierPhase::Done, None, NotifierCommand::Finish),
    }
}

/// Law: after the loop is asked to stop it hands over at most one more
/// event, and only with a shutdown timeout.
pub proof fn law_notifier_one_after_stop<T>(has_timeout: bool, a: NotifierInput<T>, b: NotifierInput<T>)
    ensures
        ({
            let (p1, _, _) = notifier_next(NotifierPhase::Running, has_timeout, NotifierInput::<T>::Stopped);
            let (p2, e1, _) = notifier_next(p1, has_timeout, a);
            let (_, e2, _) = notifier_next(p2, has_timeout, b);
            &&& (e1 is Some ==> has_timeout)
            &&& e2 is None
        }),
{
}

/// `"<s>"`
pub open spec fn quoted(s: Seq<char>) -> Seq<char> {
    seq!['"'] + s + seq!['"']
}

/// Appends `"<s>"`.
pub fn append_quoted(out: &mut String, s: &str)
    ensures
        final(out)@ == old(out)@ + quoted(s@),
{
    proof {
        reveal_strlit("\"");
    }
    out.append("\"");
    out.append(s);
    out.append("\"");
    proof {
        assert(final(out)@ =~= old(out)@ + quoted(s@));
    }
}

/// Appends ` <flag> "<s>"`.
pub fn append_option(out: &mut String, flag: &str, s: &str)
    ensures
        final(out)@ == old(out)@ + seq![' '] + flag@ + seq![' '] + quoted(s@),
{
    proof {
        reveal_strlit(" ");
    }
    out.append(" ");
    out.append(flag);
    out.append(" ");
    append_quoted(out, s);
    proof {
        assert(final(out)@ =~= old(out)@ + seq![' '] + flag@ + seq![' '] + quoted(s@));
    }
}

/// Whether the value of the admin variable, lowercased, marks a process
/// running as administrator: `1` or `true`.
pub fn is_admin_value(lowercase_value: &str) -> (r: bool)
    ensures
        r == (lowercase_value@ == "1"@ || lowercase_value@ == "true"@),
{
    crate::cli::str_equal(lowercase_value, "1") || crate::cli::str_equal(lowercase_value, "true")
}

/// The command that shows a notification or dialog from a process running as
/// the user: the executable, the subcommand and its arguments.
pub fn user_process_command(exe: &str, subcommand: &str, args: &str) -> (r: String)
    ensures
        r@ == exe@ + seq![' '] + subcommand@ + seq![' '] + args@,
{
    proof {
        reveal_strlit(" ");
    }
    let mut r = exe.to_owned();
    r.append(" ");
    r.append(subcommand);
    r.append(" ");
    r.append(args);
    proof {
        assert(r@ =~= exe@ + seq![' '] + subcommand@ + seq![' '] + args@);
    }
    r
}

} // verus!
