//! The rules of the command executor: what is refused before a process is
//! started, and what is reported once it has ended or its time has run out.
//! Starting, draining and killing the process is the caller's part.

use vstd::prelude::*;
use crate::level::{decimal, push_decimal};
use crate::text::{
    chars_of, contains_str, contains_text, lowercase, push_str, str_eq, text_from_utf8_lossy,
    text_of, utf8_lossy,
};
use super::types::Policy;

verus! {

/// What an executor is asked to do.
#[derive(Debug)]
pub enum Action {
    /// Run a shell command.
    Cli(String),
}

/// What came of an executed command. `drift` is kept for later staleness
/// signals and is always false.
pub struct ExecResult {
    pub ok: bool,
    pub drift: bool,
    pub stdout: String,
    pub stderr: String,
}

/// How the race between the process and the deadline ended.
#[derive(Clone, Copy, Debug, PartialEq, Eq, Structural)]
pub enum Ending {
    /// The process ended in time, with or without success.
    Exited { success: bool },
    /// The deadline came first; the process was killed.
    DeadlineExpired,
}

/// The capability that a lowercased command text points to: network access,
/// then destructive file operations, then operations under an identity.
pub open spec fn capability_in(lowered: Seq<char>) -> Option<Seq<char>> {
    if contains_text(lowered, "curl "@) || contains_text(lowered, "wget "@) {
        Some("network"@)
    } else if contains_text(lowered, " rm "@) || contains_text(lowered, "rm -rf"@)
        || contains_text(lowered, " mv "@) {
        Some("file_write"@)
    } else if contains_text(lowered, "git push"@) || contains_text(lowered, "gh release"@) {
        Some("identity"@)
    } else {
        None
    }
}

/// The capability that an already lowercased command text points to.
pub fn capability_of_lowered(lowered: &str) -> (r: Option<&'static str>)
    ensures
        match r {
            Some(cap) => capability_in(lowered@) == Some(cap@),
            None => capability_in(lowered@) is None,
        },
{
    let s = chars_of(lowered);
    if contains_str(&s, "curl ") || contains_str(&s, "wget ") {
        return Some("network");
    }
    if contains_str(&s, " rm ") || contains_str(&s, "rm -rf") || contains_str(&s, " mv ") {
        return Some("file_write");
    }
    if contains_str(&s, "git push") || contains_str(&s, "gh release") {
        return Some("identity");
    }
    None
}

/// The capability that a command text points to, read without regard to case.
pub fn detect_capability(cmd: &str) -> (r: Option<&'static str>)
    ensures
        match r {
            Some(cap) => capability_in(lowercase(cmd@)) == Some(cap@),
            None => capability_in(lowercase(cmd@)) is None,
        },
{
    let s = cmd.to_lowercase();
    capability_of_lowered(s.as_str())
}

/// Strict mode is on exactly when the switch is set to `1`.
pub open spec fn strict(switch: Option<Seq<char>>) -> bool {
    switch == Some("1"@)
}

/// The message of a command that the capability gate refused.
pub open spec fn blocked_message(cap: Seq<char>) -> Seq<char> {
    "capability gate blocked: "@ + cap
}

/// The capability gate: in strict mode a command that points to any
/// capability is refused before anything is started. `strict_caps` is the
/// value of the strict-mode switch, where it is set.
pub fn admit_command(cmd: &str, strict_caps: Option<&str>) -> (r: Result<(), String>)
    ensures
        r is Err <==> strict(
            match strict_caps {
                Some(v) => Some(v@),
                None => None,
            },
        ) && capability_in(lowercase(cmd@)) is Some,
        r matches Err(msg) ==> msg@ == blocked_message(capability_in(lowercase(cmd@))->0),
{
    match detect_capability(cmd) {
        Some(cap) => {
            let on = match strict_caps {
                Some(v) => str_eq(v, "1"),
                None => false,
            };
            if on {
                let mut out: Vec<char> = Vec::new();
                push_str(&mut out, "capability gate blocked: ");
                push_str(&mut out, cap);
                Err(text_of(&out))
            } else {
                Ok(())
            }
        },
        None => Ok(()),
    }
}

/// The marker that is added to the captured error output of a command whose
/// time ran out.
pub open spec fn timeout_marker(time_ms: u64) -> Seq<char> {
    "timeout after "@ + decimal(time_ms as nat) + "ms"@
}

/// The error output that is reported: what was captured, and for a command
/// whose time ran out the marker after it, on a line of its own.
pub open spec fn reported_stderr(ending: Ending, captured: Seq<char>, time_ms: u64) -> Seq<char> {
    match ending {
        Ending::Exited { .. } => captured,
        Ending::DeadlineExpired => if captured.len() == 0 {
            timeout_marker(time_ms)
        } else {
            captured + seq!['\n'] + timeout_marker(time_ms)
        },
    }
}

/// The result of a command, from how its process ended and the text that was
/// captured from it.
pub fn conclude_text(ending: Ending, stdout: String, stderr: String, policy: &Policy) -> (r:
    ExecResult)
    ensures
        r.ok == (ending == Ending::Exited { success: true }),
        !r.drift,
        r.stdout@ == stdout@,
        r.stderr@ == reported_stderr(ending, stderr@, policy.time_ms),
{
    match ending {
        Ending::Exited { success } => ExecResult { ok: success, drift: false, stdout, stderr },
        Ending::DeadlineExpired => {
            let mut out = chars_of(stderr.as_str());
            if out.len() > 0 {
                out.push('\n');
            }
            push_str(&mut out, "timeout after ");
            push_decimal(&mut out, policy.time_ms);
            push_str(&mut out, "ms");
            let text = text_of(&out);
            assert(text@ =~= reported_stderr(ending, stderr@, policy.time_ms));
            ExecResult { ok: false, drift: false, stdout, stderr: text }
        },
    }
}

/// The result of a command, from how its process ended and the bytes that
/// were drained from its two pipes. A command whose time ran out has failed,
/// whatever it printed.
pub fn conclude(ending: Ending, stdout: &[u8], stderr: &[u8], policy: &Policy) -> (r: ExecResult)
    ensures
        r.ok == (ending == Ending::Exited { success: true }),
        !r.drift,
        r.stdout@ == utf8_lossy(stdout@),
        r.stderr@ == reported_stderr(ending, utf8_lossy(stderr@), policy.time_ms),
        ending == Ending::DeadlineExpired ==> !r.ok && crate::text::ends_with(
            r.stderr@,
            timeout_marker(policy.time_ms),
        ),
{
    let out = text_from_utf8_lossy(stdout);
    let err = text_from_utf8_lossy(stderr);
    let r = conclude_text(ending, out, err, policy);
    proof {
        if ending == Ending::DeadlineExpired {
            let m = timeout_marker(policy.time_ms);
            assert(r.stderr@.subrange(r.stderr@.len() - m.len(), r.stderr@.len() as int) =~= m);
        }
    }
    r
}

} // verus!
