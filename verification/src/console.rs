//! The service console: what each terminal or log event does to the screen's
//! state, and how the service status and log lines are shown.
use vstd::prelude::*;

verus! {

/// The console's state: the log lines shown, newest first, and whether the
/// stream of log lines is still open.
pub struct ConsoleState {
    pub logs: Vec<String>,
    pub log_stream_running: bool,
}

pub struct ConsoleStateView {
    pub logs: Seq<Seq<char>>,
    pub log_stream_running: bool,
}

impl View for ConsoleState {
    type V = ConsoleStateView;

    open spec fn view(&self) -> ConsoleStateView {
        ConsoleStateView {
            logs: self.logs@.map_values(|s: String| s@),
            log_stream_running: self.log_stream_running,
        }
    }
}

/// What reaches the console while it runs.
#[derive(Debug, Clone, PartialEq, Eq)]
pub enum ConsoleInput {
    /// A line of the service's log.
    LogLine(String),
    /// The stream of log lines has closed.
    LogStreamClosed,
    /// A key was pressed.
    Key(char),
    /// Another terminal event (a mouse event, a resize).
    OtherTerminalEvent,
    /// Reading the terminal's events failed.
    TerminalError,
    /// The terminal's event stream gave nothing.
    TerminalIdle,
    /// The one-second wait passed with nothing else happening.
    Tick,
}

/// What the console does after an input: draw again and wait, or leave.
#[derive(Debug, Clone, Copy, PartialEq, Eq, Structural)]
pub enum ConsoleAction {
    Continue,
    Quit,
}

/// The state and action after an input: a log line goes on top while the
/// stream is open; the stream's end stops the reading of logs; `q` or an
/// error reading the terminal leaves; anything else only redraws.
pub open spec fn console_next(s: ConsoleStateView, input: ConsoleInput) -> (ConsoleStateView, ConsoleAction) {
    match input {
        ConsoleInput::LogLine(line) => if s.log_stream_running {
            (ConsoleStateView { logs: seq![line@] + s.logs, ..s }, ConsoleAction::Continue)
        } else {
            (s, ConsoleAction::Continue)
        },
        ConsoleInput::LogStreamClosed => (
            ConsoleStateView { log_stream_running: false, ..s },
            ConsoleAction::Continue,
        ),
        ConsoleInput::Key(c) => (s, if c == 'q' { ConsoleAction::Quit } else { ConsoleAction::Continue }),
        ConsoleInput::TerminalError => (s, ConsoleAction::Quit),
        _ => (s, ConsoleAction::Continue),
    }
}

impl ConsoleState {
    /// No log line yet, with the log stream open.
    pub fn new() -> (r: Self)
        ensures
            r@.logs == Seq::<Seq<char>>::empty(),
            r@.log_stream_running,
    {
        let r = ConsoleState { logs: Vec::new(), log_stream_running: true };
        assert(r@.logs =~= Seq::<Seq<char>>::empty());
        r
    }

    /// Whether log lines are still read.
    pub fn polls_logs(&self) -> (r: bool)
        ensures
            r == self.log_stream_running,
    {
        self.log_stream_running
    }
}

/// Applies one input to the console's state and says whether to go on.
pub fn console_step(state: &mut ConsoleState, input: ConsoleInput) -> (r: ConsoleAction)
    ensures
        final(state)@ == console_next(old(state)@, input).0,
        r == console_next(old(state)@, input).1,
{
    let ghost start = state@;
    let ghost inp = input;
    match input {
        ConsoleInput::LogLine(line) => {
            if state.log_stream_running {
                state.logs.insert(0, line);
                assert(state@.logs =~= seq![inp->LogLine_0@] + start.logs);
            }
            ConsoleAction::Continue
        },
        ConsoleInput::LogStreamClosed => {
            state.log_stream_running = false;
            ConsoleAction::Continue
        },
        ConsoleInput::Key(c) => if c == 'q' {
            ConsoleAction::Quit
        } else {
            ConsoleAction::Continue
        },
        ConsoleInput::TerminalError => ConsoleAction::Quit,
        _ => ConsoleAction::Continue,
    }
}

/// `s` with every newline taken out.
pub open spec fn without_newlines(s: Seq<char>) -> Seq<char>
    decreases s.len(),
{
    if s.len() == 0 {
        Seq::empty()
    } else if s.last() == '\n' {
        without_newlines(s.drop_last())
    } else {
        without_newlines(s.drop_last()).push(s.last())
    }
}

/// The text of a log line as shown: what the service sent, without newlines.
pub fn log_line_text(raw: &str) -> (r: String)
    ensures
        r@ == without_newlines(raw@),
{
    let n = raw.unicode_len();
    let mut out = String::new();
    let mut i: usize = 0;
    while i < n
        invariant
            n == raw@.len(),
            i <= n,
            out@ == without_newlines(raw@.take(i as int)),
        decreases n - i,
    {
        assert(raw@.take(i + 1).drop_last() =~= raw@.take(i as int));
        if raw.get_char(i) != '\n' {
            out.append(raw.substring_char(i, i + 1));
            assert(out@ =~= without_newlines(raw@.take(i as int)).push(raw@[i as int]));
        }
        i = i + 1;
    }
    assert(raw@.take(n as int) =~= raw@);
    out
}

/// The service's state as the console shows it.
#[derive(Debug, Clone, Copy, PartialEq, Eq, Structural)]
pub enum ServiceStatus {
    Started,
    Stopped,
    NotInstalled,
}

/// The colour a status is shown in.
#[derive(Debug, Clone, Copy, PartialEq, Eq, Structural)]
pub enum LabelColor {
    Green,
    Red,
    Blue,
}

/// The label and colour of a status: green `Started`, red `Stopped`, blue
/// `Not Installed`.
pub fn status_label(status: ServiceStatus) -> (r: (&'static str, LabelColor))
    ensures
        r.0@ == match status {
            ServiceStatus::Started => "Started"@,
            ServiceStatus::Stopped => "Stopped"@,
            ServiceStatus::NotInstalled => "Not Installed"@,
        },
        r.1 == match status {
            ServiceStatus::Started => LabelColor::Green,
            ServiceStatus::Stopped => LabelColor::Red,
            ServiceStatus::NotInstalled => LabelColor::Blue,
        },
{
    match status {
        ServiceStatus::Started => ("Started", LabelColor::Green),
        ServiceStatus::Stopped => ("Stopped", LabelColor::Red),
        ServiceStatus::NotInstalled => ("Not Installed", LabelColor::Blue),
    }
}

/// Whether the status is read again before drawing: when more than a second
/// has passed since it was last read.
pub fn status_needs_refresh(elapsed_nanos: u128) -> (r: bool)
    ensures
        r == (elapsed_nanos > 1_000_000_000),
{
    elapsed_nanos > 1_000_000_000
}

} // verus!
