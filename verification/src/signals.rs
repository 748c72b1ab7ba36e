//! Which signals end a service.
use vstd::prelude::*;

verus! {

/// Whether a signal, by its name, asks the service to stop: `SIGTERM`,
/// `SIGQUIT` or `SIGINT`.
pub fn is_termination_signal(signal_name: &str) -> (r: bool)
    ensures
        r == (signal_name@ == "SIGTERM"@ || signal_name@ == "SIGQUIT"@ || signal_name@ == "SIGINT"@),
{
    crate::cli::str_equal(signal_name, "SIGTERM") || crate::cli::str_equal(signal_name, "SIGQUIT")
        || crate::cli::str_equal(signal_name, "SIGINT")
}

/// What a console event does on Windows: every console event (interrupt,
/// break, close, log-off, shutdown) is turned into an interrupt signal and
/// ends the service; a signal that arrived through the channel only ends it.
#[derive(Debug, Clone, Copy, PartialEq, Eq, Structural)]
pub enum ConsoleEvent {
    CtrlC,
    CtrlBreak,
    CtrlShutdown,
    CtrlLogoff,
    CtrlClose,
    ChannelSignal,
    Cancelled,
}

/// Whether to send an interrupt signal for the event, and whether to ask
/// every service to shut down after it.
pub fn console_event_response(event: ConsoleEvent) -> (r: (bool, bool))
    ensures
        r == match event {
            ConsoleEvent::ChannelSignal => (false, true),
            ConsoleEvent::Cancelled => (true, false),
            _ => (true, true),
        },
{
    match event {
        ConsoleEvent::ChannelSignal => (false, true),
        ConsoleEvent::Cancelled => (true, false),
        _ => (true, true),
    }
}

pub open spec fn is_termination_name(n: Seq<char>) -> bool {
    n == "SIGTERM"@ || n == "SIGQUIT"@ || n == "SIGINT"@
}

/// Whether the signal listener still passes signals on.
#[derive(Debug, Clone, Copy, PartialEq, Eq, Structural)]
pub enum ListenerState {
    Listening,
    Stopped,
}

/// The name a signal is passed on under: its name, or `unknown` when it has
/// none.
pub fn forwarded_signal_name(name: Option<&str>) -> (r: &str)
    ensures
        r@ == match name {
            Some(n) => n@,
            None => "unknown"@,
        },
{
    match name {
        Some(n) => n,
        None => "unknown",
    }
}

/// The listener's step for a signal: while listening the signal is passed
/// on, and a termination signal also cancels the service and stops the
/// listener; once stopped nothing is passed on.
pub open spec fn signal_next(state: ListenerState, name: Seq<char>) -> (ListenerState, Option<Seq<char>>, bool) {
    match state {
        ListenerState::Listening => if is_termination_name(name) {
            (ListenerState::Stopped, Some(name), true)
        } else {
            (ListenerState::Listening, Some(name), false)
        },
        ListenerState::Stopped => (ListenerState::Stopped, None, false),
    }
}

/// The listener's step: the next state, the signal name passed on, if any,
/// and whether to cancel the service.
pub fn signal_step(state: ListenerState, name: &str) -> (r: (ListenerState, Option<String>, bool))
    ensures
        r.0 == signal_next(state, name@).0,
        r.2 == signal_next(state, name@).2,
        match r.1 {
            Some(s) => signal_next(state, name@).1 == Some(s@),
            None => signal_next(state, name@).1 is None,
        },
{
    match state {
        ListenerState::Listening => {
            let stop = is_termination_signal(name);
            (if stop { ListenerState::Stopped } else { ListenerState::Listening }, Some(name.to_owned()), stop)
        },
        ListenerState::Stopped => (ListenerState::Stopped, None, false),
    }
}

/// The names passed on by a listener in `state` that receives `names` in turn.
pub open spec fn listener_run(state: ListenerState, names: Seq<Seq<char>>) -> Seq<Seq<char>>
    decreases names.len(),
{
    if names.len() == 0 {
        Seq::empty()
    } else {
        let (next, out, _) = signal_next(state, names[0]);
        let rest = listener_run(next, names.skip(1));
        match out {
            Some(n) => seq![n] + rest,
            None => rest,
        }
    }
}

/// Law: a listener passes on the signals it receives in order, up to and
/// including the first termination signal, and nothing after it.
pub proof fn law_listener_forwards_until_termination(names: Seq<Seq<char>>)
    ensures
        ({
            let out = listener_run(ListenerState::Listening, names);
            &&& out.len() <= names.len()
            &&& out == names.take(out.len() as int)
            &&& forall|j: int| 0 <= j < out.len() - 1 ==> !is_termination_name(#[trigger] out[j])
            &&& out.len() < names.len() ==> out.len() > 0 && is_termination_name(out[out.len() - 1])
        }),
    decreases names.len(),
{
    if names.len() > 0 {
        let first = names[0];
        if is_termination_name(first) {
            lemma_stopped_run_empty(names.skip(1));
            assert(listener_run(ListenerState::Listening, names) =~= seq![first]);
            assert(names.take(1) =~= seq![first]);
        } else {
            let tail = names.skip(1);
            law_listener_forwards_until_termination(tail);
            let rest = listener_run(ListenerState::Listening, tail);
            let out = listener_run(ListenerState::Listening, names);
            assert(out == seq![first] + rest);
            assert(out =~= names.take(out.len() as int)) by {
                assert forall|j: int| 0 <= j < out.len() implies out[j] == names[j] by {
                    if j > 0 {
                        assert(rest[j - 1] == tail[j - 1]);
                    }
                }
            }
            assert forall|j: int| 0 <= j < out.len() - 1 implies !is_termination_name(#[trigger] out[j]) by {
                if j > 0 {
                    assert(out[j] == rest[j - 1]);
                }
            }
            if out.len() < names.len() {
                assert(rest.len() < tail.len());
                assert(out[out.len() - 1] == rest[rest.len() - 1]);
            }
        }
    }
}

/// A stopped listener passes nothing on.
pub proof fn lemma_stopped_run_empty(names: Seq<Seq<char>>)
    ensures
        listener_run(ListenerState::Stopped, names) == Seq::<Seq<char>>::empty(),
    decreases names.len(),
{
    if names.len() > 0 {
        lemma_stopped_run_empty(names.skip(1));
    }
}

} // verus!
