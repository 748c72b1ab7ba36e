//! Desktop notifications.
use vstd::prelude::*;

use crate::text::opt_view;

pub mod cli;

use super::{append_option, append_quoted, quoted};

verus! {

/// How urgent a notification is.
#[derive(Debug, Clone, Copy, PartialEq, Eq, Structural)]
pub enum Urgency {
    Low,
    Normal,
    Critical,
}

/// How long a notification stays on screen.
#[derive(Debug, Clone, Copy, PartialEq, Eq, Structural)]
pub enum Timeout {
    /// As the notification server decides.
    Default,
    /// Until the user closes it.
    Never,
    /// This many milliseconds.
    Milliseconds(u32),
}

/// A desktop notification of an application.
#[derive(Clone)]
pub struct Notification {
    pub label: String,
    summary: String,
    subtitle: Option<String>,
    body: String,
    icon: String,
    image_path: Option<String>,
    sound_name: Option<String>,
    timeout: Timeout,
    urgency: Option<Urgency>,
    actions: Vec<(String, String)>,
    id: Option<u32>,
}

/// The parts of a notification.
pub struct NotificationView {
    pub label: Seq<char>,
    pub summary: Seq<char>,
    pub subtitle: Option<Seq<char>>,
    pub body: Seq<char>,
    pub icon: Seq<char>,
    pub image_path: Option<Seq<char>>,
    pub sound_name: Option<Seq<char>>,
    pub timeout: Timeout,
    pub urgency: Option<Urgency>,
    pub actions: Seq<(Seq<char>, Seq<char>)>,
    pub id: Option<u32>,
}

impl View for Notification {
    type V = NotificationView;

    closed spec fn view(&self) -> NotificationView {
        NotificationView {
            label: self.label@,
            summary: self.summary@,
            subtitle: opt_view(self.subtitle),
            body: self.body@,
            icon: self.icon@,
            image_path: opt_view(self.image_path),
            sound_name: opt_view(self.sound_name),
            timeout: self.timeout,
            urgency: self.urgency,
            actions: self.actions@.map_values(|a: (String, String)| (a.0@, a.1@)),
            id: self.id,
        }
    }
}

/// The arguments that show the same notification from another process:
/// the quoted summary, then ` -s`, ` -b`, ` -i`, ` --sound-name` and
/// ` --icon` for the subtitle, a non-empty body, the image, the sound and a
/// non-empty icon.
pub open spec fn notification_args(n: NotificationView) -> Seq<char> {
    let a = quoted(n.summary);
    let a = match n.subtitle {
        Some(s) => a + " -s "@ + quoted(s),
        None => a,
    };
    let a = if n.body.len() > 0 {
        a + " -b "@ + quoted(n.body)
    } else {
        a
    };
    let a = match n.image_path {
        Some(p) => a + " -i "@ + quoted(p),
        None => a,
    };
    let a = match n.sound_name {
        Some(s) => a + " --sound-name "@ + quoted(s),
        None => a,
    };
    if n.icon.len() > 0 {
        a + " --icon "@ + quoted(n.icon)
    } else {
        a
    }
}

impl Notification {
    /// An empty notification of the application `label`.
    pub fn new(label: &str) -> (r: Self)
        ensures
            r@ == (NotificationView {
                label: label@,
                summary: Seq::empty(),
                subtitle: None,
                body: Seq::empty(),
                icon: Seq::empty(),
                image_path: None,
                sound_name: None,
                timeout: Timeout::Default,
                urgency: None,
                actions: Seq::empty(),
                id: None,
            }),
    {
        let r = Notification {
            label: label.to_owned(),
            summary: String::new(),
            subtitle: None,
            body: String::new(),
            icon: String::new(),
            image_path: None,
            sound_name: None,
            timeout: Timeout::Default,
            urgency: None,
            actions: Vec::new(),
            id: None,
        };
        assert(r@.actions =~= Seq::<(Seq<char>, Seq<char>)>::empty());
        r
    }

    pub fn summary(self, summary: &str) -> (r: Self)
        ensures
            r@ == (NotificationView { summary: summary@, ..self@ }),
    {
        Notification { summary: summary.to_owned(), ..self }
    }

    pub fn subtitle(self, subtitle: &str) -> (r: Self)
        ensures
            r@ == (NotificationView { subtitle: Some(subtitle@), ..self@ }),
    {
        Notification { subtitle: Some(subtitle.to_owned()), ..self }
    }

    pub fn image_path(self, path: &str) -> (r: Self)
        ensures
            r@ == (NotificationView { image_path: Some(path@), ..self@ }),
    {
        Notification { image_path: Some(path.to_owned()), ..self }
    }

    pub fn sound_name(self, name: &str) -> (r: Self)
        ensures
            r@ == (NotificationView { sound_name: Some(name@), ..self@ }),
    {
        Notification { sound_name: Some(name.to_owned()), ..self }
    }

    pub fn body(self, body: &str) -> (r: Self)
        ensures
            r@ == (NotificationView { body: body@, ..self@ }),
    {
        Notification { body: body.to_owned(), ..self }
    }

    pub fn icon(self, icon: &str) -> (r: Self)
        ensures
            r@ == (NotificationView { icon: icon@, ..self@ }),
    {
        Notification { icon: icon.to_owned(), ..self }
    }

    /// Sets the icon to the name of the running program's executable, which
    /// the caller reads from the environment and passes as `exe_name`.
    pub fn auto_icon(self, exe_name: &str) -> (r: Self)
        ensures
            r@ == (NotificationView { icon: exe_name@, ..self@ }),
    {
        Notification { icon: exe_name.to_owned(), ..self }
    }

    pub fn timeout(self, timeout: Timeout) -> (r: Self)
        ensures
            r@ == (NotificationView { timeout, ..self@ }),
    {
        Notification { timeout, ..self }
    }

    pub fn urgency(self, urgency: Urgency) -> (r: Self)
        ensures
            r@ == (NotificationView { urgency: Some(urgency), ..self@ }),
    {
        Notification { urgency: Some(urgency), ..self }
    }

    /// Adds a button with this identifier and label.
    pub fn action(self, identifier: &str, label: &str) -> (r: Self)
        ensures
            r@ == (NotificationView { actions: self@.actions.push((identifier@, label@)), ..self@ }),
    {
        let mut this = self;
        this.actions.push((identifier.to_owned(), label.to_owned()));
        proof {
            assert(this@.actions =~= self@.actions.push((identifier@, label@)));
        }
        this
    }

    pub fn id(self, id: u32) -> (r: Self)
        ensures
            r@ == (NotificationView { id: Some(id), ..self@ }),
    {
        Notification { id: Some(id), ..self }
    }

    pub fn get_summary(&self) -> (r: &str)
        ensures
            r@ == self@.summary,
    {
        self.summary.as_str()
    }

    pub fn get_subtitle(&self) -> (r: Option<&str>)
        ensures
            match r {
                Some(s) => self@.subtitle == Some(s@),
                None => self@.subtitle is None,
            },
    {
        match &self.subtitle {
            Some(s) => Some(s.as_str()),
            None => None,
        }
    }

    pub fn get_body(&self) -> (r: &str)
        ensures
            r@ == self@.body,
    {
        self.body.as_str()
    }

    pub fn get_icon(&self) -> (r: &str)
        ensures
            r@ == self@.icon,
    {
        self.icon.as_str()
    }

    pub fn get_image_path(&self) -> (r: Option<&str>)
        ensures
            match r {
                Some(s) => self@.image_path == Some(s@),
                None => self@.image_path is None,
            },
    {
        match &self.image_path {
            Some(s) => Some(s.as_str()),
            None => None,
        }
    }

    pub fn get_sound_name(&self) -> (r: Option<&str>)
        ensures
            match r {
                Some(s) => self@.sound_name == Some(s@),
                None => self@.sound_name is None,
            },
    {
        match &self.sound_name {
            Some(s) => Some(s.as_str()),
            None => None,
        }
    }

    pub fn get_timeout(&self) -> (r: Timeout)
        ensures
            r == self@.timeout,
    {
        self.timeout
    }

    pub fn get_urgency(&self) -> (r: Option<Urgency>)
        ensures
            r == self@.urgency,
    {
        self.urgency
    }

    pub fn get_actions(&self) -> (r: &Vec<(String, String)>)
        ensures
            r@.map_values(|a: (String, String)| (a.0@, a.1@)) == self@.actions,
    {
        &self.actions
    }

    pub fn get_id(&self) -> (r: Option<u32>)
        ensures
            r == self@.id,
    {
        self.id
    }

    /// The arguments that show the same notification from another process.
    pub fn to_args(&self) -> (r: String)
        ensures
            r@ == notification_args(self@),
    {
        proof {
            reveal_strlit("-s");
            reveal_strlit(" -s ");
            reveal_strlit("-b");
            reveal_strlit(" -b ");
            reveal_strlit("-i");
            reveal_strlit(" -i ");
            reveal_strlit("--sound-name");
            reveal_strlit(" --sound-name ");
            reveal_strlit("--icon");
            reveal_strlit(" --icon ");
        }
        let ghost n = self@;
        let mut args = String::new();
        append_quoted(&mut args, self.summary.as_str());
        let ghost a1 = quoted(n.summary);
        assert(args@ =~= a1);
        if let Some(subtitle) = &self.subtitle {
            append_option(&mut args, "-s", subtitle.as_str());
        }
        let ghost a2 = match n.subtitle {
            Some(s) => a1 + " -s "@ + quoted(s),
            None => a1,
        };
        assert(args@ =~= a2);
        if self.body.as_str().unicode_len() > 0 {
            append_option(&mut args, "-b", self.body.as_str());
        }
        let ghost a3 = if n.body.len() > 0 {
            a2 + " -b "@ + quoted(n.body)
        } else {
            a2
        };
        assert(args@ =~= a3);
        if let Some(image_path) = &self.image_path {
            append_option(&mut args, "-i", image_path.as_str());
        }
        let ghost a4 = match n.image_path {
            Some(p) => a3 + " -i "@ + quoted(p),
            None => a3,
        };
        assert(args@ =~= a4);
        if let Some(sound) = &self.sound_name {
            append_option(&mut args, "--sound-name", sound.as_str());
        }
        let ghost a5 = match n.sound_name {
            Some(s) => a4 + " --sound-name "@ + quoted(s),
            None => a4,
        };
        assert(args@ =~= a5);
        if self.icon.as_str().unicode_len() > 0 {
            append_option(&mut args, "--icon", self.icon.as_str());
        }
        assert(args@ =~= notification_args(n));
        args
    }
}

} // verus!
