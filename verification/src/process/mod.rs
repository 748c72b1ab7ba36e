//! Process inspection: the status a process is in and how its figures are
//! written out.
use sysinfo::ProcessStatus as SysinfoStatus;
use vstd::prelude::*;

use crate::text::{append_padded2, int_text, pad2};

pub mod cli;
pub mod tree;

verus! {

/// The scheduler state of sysinfo's process record.
#[verifier::external_type_specification]
pub struct ExSysinfoProcessStatus(SysinfoStatus);

/// The state a process is in.
#[derive(Debug, Clone, Copy, PartialEq, Eq, Structural)]
pub enum ProcessStatus {
    Idle,
    Running,
    Sleeping,
    Stopped,
    Zombie,
    Tracing,
    Dead,
    Wakekill,
    Waking,
    Parked,
    LockBlocked,
    UninterruptibleDiskSleep,
    Unknown(u32),
}

/// The status that each of sysinfo's states stands for.
pub open spec fn status_of(source: SysinfoStatus) -> ProcessStatus {
    match source {
        SysinfoStatus::Idle => ProcessStatus::Idle,
        SysinfoStatus::Run => ProcessStatus::Running,
        SysinfoStatus::Sleep => ProcessStatus::Sleeping,
        SysinfoStatus::Stop => ProcessStatus::Stopped,
        SysinfoStatus::Zombie => ProcessStatus::Zombie,
        SysinfoStatus::Tracing => ProcessStatus::Tracing,
        SysinfoStatus::Dead => ProcessStatus::Dead,
        SysinfoStatus::Wakekill => ProcessStatus::Wakekill,
        SysinfoStatus::Waking => ProcessStatus::Waking,
        SysinfoStatus::Parked => ProcessStatus::Parked,
        SysinfoStatus::LockBlocked => ProcessStatus::LockBlocked,
        SysinfoStatus::UninterruptibleDiskSleep => ProcessStatus::UninterruptibleDiskSleep,
        SysinfoStatus::Unknown(code) => ProcessStatus::Unknown(code),
    }
}

impl ProcessStatus {
    /// The status for a state reported by sysinfo.
    pub fn from_sysinfo_status(source: SysinfoStatus) -> (r: Self)
        ensures
            r == status_of(source),
    {
        match source {
            SysinfoStatus::Idle => ProcessStatus::Idle,
            SysinfoStatus::Run => ProcessStatus::Running,
            SysinfoStatus::Sleep => ProcessStatus::Sleeping,
            SysinfoStatus::Stop => ProcessStatus::Stopped,
            SysinfoStatus::Zombie => ProcessStatus::Zombie,
            SysinfoStatus::Tracing => ProcessStatus::Tracing,
            SysinfoStatus::Dead => ProcessStatus::Dead,
            SysinfoStatus::Wakekill => ProcessStatus::Wakekill,
            SysinfoStatus::Waking => ProcessStatus::Waking,
            SysinfoStatus::Parked => ProcessStatus::Parked,
            SysinfoStatus::LockBlocked => ProcessStatus::LockBlocked,
            SysinfoStatus::UninterruptibleDiskSleep => {
                ProcessStatus::UninterruptibleDiskSleep
            },
            SysinfoStatus::Unknown(status) => ProcessStatus::Unknown(status),
        }
    }
}

/// How each status is written out.
pub open spec fn status_text(s: ProcessStatus) -> Seq<char> {
    match s {
        ProcessStatus::Idle => "Idle"@,
        ProcessStatus::Running => "Running"@,
        ProcessStatus::Sleeping => "Sleeping"@,
        ProcessStatus::Stopped => "Stopped"@,
        ProcessStatus::Zombie => "Zombie"@,
        ProcessStatus::Tracing => "Tracing"@,
        ProcessStatus::Dead => "Dead"@,
        ProcessStatus::Wakekill => "Wakekill"@,
        ProcessStatus::Waking => "Waking"@,
        ProcessStatus::Parked => "Parked"@,
        ProcessStatus::LockBlocked => "Lock Blocked"@,
        ProcessStatus::UninterruptibleDiskSleep => "Uninterruptible Disk Sleep"@,
        ProcessStatus::Unknown(_) => "Unknown"@,
    }
}

impl ProcessStatus {
    /// The status as it is shown to a user; an unknown status shows as
    /// `Unknown`, whatever its code.
    pub fn to_string(&self) -> (r: String)
        ensures
            r@ == status_text(*self),
    {
        let s = match self {
            ProcessStatus::Idle => "Idle",
            ProcessStatus::Running => "Running",
            ProcessStatus::Sleeping => "Sleeping",
            ProcessStatus::Stopped => "Stopped",
            ProcessStatus::Zombie => "Zombie",
            ProcessStatus::Tracing => "Tracing",
            ProcessStatus::Dead => "Dead",
            ProcessStatus::Wakekill => "Wakekill",
            ProcessStatus::Waking => "Waking",
            ProcessStatus::Parked => "Parked",
            ProcessStatus::LockBlocked => "Lock Blocked",
            ProcessStatus::UninterruptibleDiskSleep => "Uninterruptible Disk Sleep",
            ProcessStatus::Unknown(_) => "Unknown",
        };
        s.to_owned()
    }
}

/// Integer division that rounds towards zero, as Rust's `/` does.
pub open spec fn div_toward_zero(a: int, b: nat) -> int {
    if a >= 0 {
        a / (b as int)
    } else {
        -((-a) / (b as int))
    }
}

/// The remainder that goes with `div_toward_zero`, as Rust's `%` gives it.
pub open spec fn rem_toward_zero(a: int, b: nat) -> int {
    a - b * div_toward_zero(a, b)
}

/// The seconds, minutes and hours shown for a run time of `s` seconds.
pub open spec fn runtime_seconds(s: int) -> int {
    rem_toward_zero(s, 60)
}

pub open spec fn runtime_minutes(s: int) -> int {
    rem_toward_zero(div_toward_zero(s, 60), 60)
}

pub open spec fn runtime_hours(s: int) -> int {
    div_toward_zero(div_toward_zero(s, 60), 60)
}

/// `HH:MM:SS`, each part padded with zeros to two characters.
pub open spec fn runtime_text(s: int) -> Seq<char> {
    pad2(int_text(runtime_hours(s))) + seq![':'] + pad2(int_text(runtime_minutes(s))) + seq![':']
        + pad2(int_text(runtime_seconds(s)))
}

/// Writes a run time given in whole seconds as `HH:MM:SS`.
pub fn format_runtime(seconds: i64) -> (r: String)
    ensures
        r@ == runtime_text(seconds as int),
{
    let negative = seconds < 0;
    let magnitude: u64 = if negative {
        (-(seconds as i128)) as u64
    } else {
        seconds as u64
    };
    let total_minutes = magnitude / 60;
    let secs = magnitude % 60;
    let mins = total_minutes % 60;
    let hours = total_minutes / 60;
    let mut r = String::new();
    proof {
        reveal_strlit(":");
        let s = seconds as int;
        let m = magnitude as int;
        assert(m == if s < 0 { -s } else { s });
        assert(div_toward_zero(s, 60) == if s < 0 { -(m / 60) } else { m / 60 });
        assert(runtime_seconds(s) == if s < 0 { -(m % 60) } else { m % 60 });
        assert(runtime_minutes(s) == if s < 0 { -((m / 60) % 60) } else { (m / 60) % 60 }) by {
            let q = m / 60;
            assert(div_toward_zero(if s < 0 { -q } else { q }, 60) == if s < 0 { -(q / 60) } else { q / 60 });
        }
        assert(runtime_hours(s) == if s < 0 { -((m / 60) / 60) } else { (m / 60) / 60 });
    }
    append_padded2(&mut r, negative && hours > 0, hours);
    r.append(":");
    append_padded2(&mut r, negative && mins > 0, mins);
    r.append(":");
    append_padded2(&mut r, negative && secs > 0, secs);
    proof {
        assert(r@ =~= runtime_text(seconds as int));
    }
    r
}

/// Law: for a non-negative run time the hours, minutes and seconds shown add
/// up to the run time, and the minutes and seconds are each below sixty.
pub proof fn law_runtime_parts(s: int)
    requires
        s >= 0,
    ensures
        runtime_hours(s) * 3600 + runtime_minutes(s) * 60 + runtime_seconds(s) == s,
        0 <= runtime_minutes(s) < 60,
        0 <= runtime_seconds(s) < 60,
        runtime_hours(s) >= 0,
{
    let q = s / 60;
    assert(s == q * 60 + s % 60);
    assert(q == (q / 60) * 60 + q % 60);
}

/// Law: each of sysinfo's states is reported as the status of the same
/// meaning (a stopped process as `Stopped`, a running one as `Running`, an
/// unknown code as that code), and no two states are reported alike.
pub proof fn law_status_of_faithful(a: SysinfoStatus, b: SysinfoStatus)
    ensures
        status_of(SysinfoStatus::Stop) == ProcessStatus::Stopped,
        status_text(status_of(SysinfoStatus::Stop)) == "Stopped"@,
        status_of(SysinfoStatus::Run) == ProcessStatus::Running,
        status_of(SysinfoStatus::Sleep) == ProcessStatus::Sleeping,
        status_of(SysinfoStatus::Idle) == ProcessStatus::Idle,
        status_of(SysinfoStatus::Zombie) == ProcessStatus::Zombie,
        status_of(SysinfoStatus::Dead) == ProcessStatus::Dead,
        a matches SysinfoStatus::Unknown(code) ==> status_of(a) == ProcessStatus::Unknown(code),
        status_of(a) == status_of(b) ==> a == b,
{
}

} // verus!
