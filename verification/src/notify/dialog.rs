//! Message dialogs: alerts and confirmations.
use vstd::prelude::*;

pub mod cli;

use core::marker::PhantomData;

use super::{append_option, append_quoted, quoted};

verus! {

/// The kind of a dialog.
pub trait DialogType {}

/// A dialog with one button.
#[derive(Clone)]
pub struct Alert;

impl DialogType for Alert {}

/// A dialog that asks yes or no.
#[derive(Clone)]
pub struct Confirm;

impl DialogType for Confirm {}

/// How serious a dialog's message is.
#[derive(Debug, Clone, Copy, PartialEq, Eq, Structural)]
pub enum MessageLevel {
    Info,
    Warning,
    Error,
}

/// The name a level is passed by on a command line.
pub open spec fn level_name(l: MessageLevel) -> Seq<char> {
    match l {
        MessageLevel::Info => "info"@,
        MessageLevel::Warning => "warning"@,
        MessageLevel::Error => "error"@,
    }
}

pub fn level_name_exec(l: MessageLevel) -> (r: &'static str)
    ensures
        r@ == level_name(l),
{
    match l {
        MessageLevel::Info => "info",
        MessageLevel::Warning => "warning",
        MessageLevel::Error => "error",
    }
}

/// A message dialog of kind `T`.
pub struct MessageDialog<T> {
    label: String,
    title: String,
    text: String,
    message_level: MessageLevel,
    _phantom: PhantomData<T>,
}

/// The parts of a dialog.
pub struct MessageDialogView {
    pub label: Seq<char>,
    pub title: Seq<char>,
    pub text: Seq<char>,
    pub message_level: MessageLevel,
}

impl<T> View for MessageDialog<T> {
    type V = MessageDialogView;

    closed spec fn view(&self) -> MessageDialogView {
        MessageDialogView {
            label: self.label@,
            title: self.title@,
            text: self.text@,
            message_level: self.message_level,
        }
    }
}

/// The arguments that show the same dialog from another process:
/// `"<text>" -m "<level>"`, then ` -t "<title>"` when there is a title.
pub open spec fn dialog_args(d: MessageDialogView) -> Seq<char> {
    let base = quoted(d.text) + " -m "@ + quoted(level_name(d.message_level));
    if d.title.len() == 0 {
        base
    } else {
        base + " -t "@ + quoted(d.title)
    }
}

impl<T> MessageDialog<T> {
    /// An informational dialog for the application `label`, with no title
    /// and no text.
    pub fn new(label: &str) -> (r: Self)
        ensures
            r@ == (MessageDialogView {
                label: label@,
                title: Seq::empty(),
                text: Seq::empty(),
                message_level: MessageLevel::Info,
            }),
    {
        MessageDialog {
            title: String::new(),
            text: String::new(),
            label: label.to_owned(),
            message_level: MessageLevel::Info,
            _phantom: PhantomData,
        }
    }

    pub fn with_title(self, title: &str) -> (r: Self)
        ensures
            r@ == (MessageDialogView { title: title@, ..self@ }),
    {
        MessageDialog { title: title.to_owned(), ..self }
    }

    pub fn with_text(self, text: &str) -> (r: Self)
        ensures
            r@ == (MessageDialogView { text: text@, ..self@ }),
    {
        MessageDialog { text: text.to_owned(), ..self }
    }

    pub fn with_level(self, message_level: MessageLevel) -> (r: Self)
        ensures
            r@ == (MessageDialogView { message_level, ..self@ }),
    {
        MessageDialog { message_level, ..self }
    }

    pub fn label(&self) -> (r: &str)
        ensures
            r@ == self@.label,
    {
        self.label.as_str()
    }

    pub fn title(&self) -> (r: &str)
        ensures
            r@ == self@.title,
    {
        self.title.as_str()
    }

    pub fn text(&self) -> (r: &str)
        ensures
            r@ == self@.text,
    {
        self.text.as_str()
    }

    pub fn message_level(&self) -> (r: MessageLevel)
        ensures
            r == self@.message_level,
    {
        self.message_level
    }

    /// The arguments that show the same dialog from another process.
    pub fn to_args(&self) -> (r: String)
        ensures
            r@ == dialog_args(self@),
    {
        let mut args = String::new();
        append_quoted(&mut args, self.text.as_str());
        append_option(&mut args, "-m", level_name_exec(self.message_level));
        proof {
            reveal_strlit("-m");
            reveal_strlit(" -m ");
            reveal_strlit("-t");
            reveal_strlit(" -t ");
            assert(args@ =~= quoted(self@.text) + " -m "@ + quoted(level_name(self@.message_level)));
        }
        if self.title.as_str().unicode_len() > 0 {
            let ghost before = args@;
            append_option(&mut args, "-t", self.title.as_str());
            proof {
                assert(args@ =~= before + " -t "@ + quoted(self@.title));
            }
        }
        args
    }
}

/// The lowercase form of a text, by `str::to_lowercase`.
pub uninterp spec fn lowercase(s: Seq<char>) -> Seq<char>;

/// Unicode's White_Space characters, which `str::trim` removes.
pub open spec fn is_white_space(c: char) -> bool {
    let u = c as u32;
    ||| 0x9 <= u <= 0xd
    ||| u == 0x20
    ||| u == 0x85
    ||| u == 0xa0
    ||| u == 0x1680
    ||| 0x2000 <= u <= 0x200a
    ||| u == 0x2028
    ||| u == 0x2029
    ||| u == 0x202f
    ||| u == 0x205f
    ||| u == 0x3000
}

/// `s` without its leading white space.
pub open spec fn trim_start(s: Seq<char>) -> Seq<char>
    decreases s.len(),
{
    if s.len() > 0 && is_white_space(s[0]) {
        trim_start(s.skip(1))
    } else {
        s
    }
}

/// `s` without its trailing white space.
pub open spec fn trim_end(s: Seq<char>) -> Seq<char>
    decreases s.len(),
{
    if s.len() > 0 && is_white_space(s.last()) {
        trim_end(s.drop_last())
    } else {
        s
    }
}

/// The text with leading and trailing white space removed.
pub open spec fn trimmed(s: Seq<char>) -> Seq<char> {
    trim_end(trim_start(s))
}

/// Lowercases `s` with `str::to_lowercase`; the result is named `lowercase`,
/// a function of `s` alone (Unicode case mapping is not stated here).
#[verifier::external_body]
pub(crate) fn str_to_lowercase(s: &str) -> (r: String)
    ensures
        r@ == lowercase(s@),
{
    s.to_lowercase()
}

/// Trims `s` with `str::trim`, which std documents as removing leading and
/// trailing characters with Unicode's White_Space property.
#[verifier::external_body]
pub(crate) fn str_trim(s: &str) -> (r: &str)
    ensures
        r@ == trimmed(s@),
{
    s.trim()
}

/// The level a lowercased level name stands for: `info`, `warn` or
/// `warning`, `error`.
pub open spec fn level_for_name(lower: Seq<char>) -> Option<MessageLevel> {
    if lower == "info"@ {
        Some(MessageLevel::Info)
    } else if lower == "warn"@ || lower == "warning"@ {
        Some(MessageLevel::Warning)
    } else if lower == "error"@ {
        Some(MessageLevel::Error)
    } else {
        None
    }
}

/// Reads a lowercased level name; an unknown name gives the message
/// `Invalid message type <name>`.
pub fn message_level_from_lowercase(lower: &str) -> (r: Result<MessageLevel, String>)
    ensures
        match r {
            Ok(l) => level_for_name(lower@) == Some(l),
            Err(m) => level_for_name(lower@) is None && m@ == "Invalid message type "@ + lower@,
        },
{
    if crate::cli::str_equal(lower, "info") {
        Ok(MessageLevel::Info)
    } else if crate::cli::str_equal(lower, "warn") || crate::cli::str_equal(lower, "warning") {
        Ok(MessageLevel::Warning)
    } else if crate::cli::str_equal(lower, "error") {
        Ok(MessageLevel::Error)
    } else {
        let mut m = "Invalid message type ".to_owned();
        m.append(lower);
        Err(m)
    }
}

/// Reads a level name given on the command line, in any case.
pub fn message_type_parser(val: &str) -> (r: Result<MessageLevel, String>)
    ensures
        match r {
            Ok(l) => level_for_name(lowercase(val@)) == Some(l),
            Err(m) => level_for_name(lowercase(val@)) is None && m@ == "Invalid message type "@
                + lowercase(val@),
        },
{
    let lower = str_to_lowercase(val);
    message_level_from_lowercase(lower.as_str())
}

/// The answer a confirmation process printed, once trimmed: `true`, `false`,
/// or anything else, which is an error naming the output.
pub fn confirm_answer(trimmed_output: &str) -> (r: Result<bool, String>)
    ensures
        match r {
            Ok(b) => (b && trimmed_output@ == "true"@) || (!b && trimmed_output@ == "false"@),
            Err(m) => trimmed_output@ != "true"@ && trimmed_output@ != "false"@ && m@
                == "Invalid output from subprocess: "@ + trimmed_output@,
        },
{
    if crate::cli::str_equal(trimmed_output, "true") {
        Ok(true)
    } else if crate::cli::str_equal(trimmed_output, "false") {
        Ok(false)
    } else {
        let mut m = "Invalid output from subprocess: ".to_owned();
        m.append(trimmed_output);
        Err(m)
    }
}

/// Reads what a confirmation process printed.
pub fn parse_confirm_output(output: &str) -> (r: Result<bool, String>)
    ensures
        match r {
            Ok(b) => (b && trimmed(output@) == "true"@) || (!b && trimmed(output@) == "false"@),
            Err(m) => trimmed(output@) != "true"@ && trimmed(output@) != "false"@ && m@
                == "Invalid output from subprocess: "@ + trimmed(output@),
        },
{
    confirm_answer(str_trim(output))
}

} // verus!
