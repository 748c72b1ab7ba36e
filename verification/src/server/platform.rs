//! Decisions of the platform service managers: what a Windows service control
//! request is answered with, the exit code it reports, and how the
//! environment of a per-user service is read from the registry.
use vstd::prelude::*;

verus! {

/// The registry `Type` of a per-user service created from an own-process template.
pub const USER_OWN_PROCESS_TEMPLATE: u32 = 0x50;

/// The registry `Type` of a per-user service created from a share-process template.
pub const USER_SHARE_PROCESS_TEMPLATE: u32 = 0x60;

/// A control request from the service control manager.
#[derive(Debug, Clone, Copy, PartialEq, Eq, Structural)]
pub enum ServiceControlKind {
    /// Report the current status.
    Interrogate,
    /// Stop the service.
    Stop,
    /// Any other request.
    Other,
}

/// How a control request is answered.
#[derive(Debug, Clone, Copy, PartialEq, Eq, Structural)]
pub enum ControlHandlerResult {
    NoError,
    NotImplemented,
}

/// The answer to a control request, and whether the service is told to stop
/// (by an interrupt signal). Interrogation is always answered without error.
pub fn handle_control_event(event: ServiceControlKind) -> (r: (ControlHandlerResult, bool))
    ensures
        r == match event {
            ServiceControlKind::Interrogate => (ControlHandlerResult::NoError, false),
            ServiceControlKind::Stop => (ControlHandlerResult::NoError, true),
            ServiceControlKind::Other => (ControlHandlerResult::NotImplemented, false),
        },
{
    match event {
        ServiceControlKind::Interrogate => (ControlHandlerResult::NoError, false),
        ServiceControlKind::Stop => (ControlHandlerResult::NoError, true),
        ServiceControlKind::Other => (ControlHandlerResult::NotImplemented, false),
    }
}

/// The exit code reported when the service stops: 0 after success, 1 after failure.
pub fn exit_code_for<E>(result: &Result<(), E>) -> (r: u32)
    ensures
        r == if result is Ok { 0u32 } else { 1u32 },
{
    match result {
        Ok(()) => 0,
        Err(_) => 1,
    }
}

/// A service is a per-user service when its registry `Type` is one of the
/// two per-user templates.
pub fn is_user_service(service_type: Option<u32>) -> (r: bool)
    ensures
        r == (service_type == Some(USER_OWN_PROCESS_TEMPLATE) || service_type == Some(
            USER_SHARE_PROCESS_TEMPLATE,
        )),
{
    match service_type {
        Some(t) => t == USER_OWN_PROCESS_TEMPLATE || t == USER_SHARE_PROCESS_TEMPLATE,
        None => false,
    }
}

/// `var` contains `=`.
pub open spec fn has_equals(var: Seq<char>) -> bool {
    exists|k: int| 0 <= k < var.len() && var[k] == '='
}

/// `name` and `value` are what an environment entry `var` sets: the text
/// before the first `=`, and the text after it up to the next `=` or the end.
pub open spec fn env_entry_parts(var: Seq<char>, name: Seq<char>, value: Seq<char>) -> bool {
    let k = name.len() as int;
    let e = k + 1 + value.len();
    &&& k < var.len()
    &&& var[k] == '='
    &&& var.subrange(0, k) == name
    &&& forall|j: int| 0 <= j < k ==> var[j] != '='
    &&& e <= var.len()
    &&& var.subrange(k + 1, e) == value
    &&& forall|j: int| k + 1 <= j < e ==> var[j] != '='
    &&& (e == var.len() || var[e] == '=')
}

fn find_equals(var: &str, start: usize) -> (r: usize)
    requires
        start <= var@.len(),
    ensures
        start <= r <= var@.len(),
        forall|j: int| start <= j < r ==> var@[j] != '=',
        r == var@.len() || var@[r as int] == '=',
{
    let n = var.unicode_len();
    let mut i = start;
    while i < n && var.get_char(i) != '='
        invariant
            n == var@.len(),
            start <= i <= n,
            forall|j: int| start <= j < i ==> var@[j] != '=',
        decreases n - i,
    {
        i = i + 1;
    }
    i
}

/// Splits an environment entry `NAME=value` into its name and value; a
/// second `=` ends the value.
pub fn split_env_var(var: &str) -> (r: (String, String))
    requires
        has_equals(var@),
    ensures
        env_entry_parts(var@, r.0@, r.1@),
{
    let k = find_equals(var, 0);
    let n = var.unicode_len();
    if k == n {
        proof {
            let w = choose|w: int| 0 <= w < var@.len() && var@[w] == '=';
            assert(var@[w] != '=');
        }
    }
    let e = find_equals(var, k + 1);
    let name = var.substring_char(0, k).to_owned();
    let value = var.substring_char(k + 1, e).to_owned();
    (name, value)
}

} // verus!
