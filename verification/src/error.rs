//! What can go wrong with a sidecar, which failures stop its start, and how
//! each is worded.

use crate::output::{copy_lines, line_views, stream_tag, DiagnosticLine, LineView};
use crate::group::{group_error_text, GroupError};
use crate::text::{decimal, decimal_text};
use vstd::prelude::*;
use vstd::string::StringExecFns;

verus! {

/// A failure of the supervisor.
#[derive(Debug, PartialEq, Eq)]
pub enum SidecarError {
    /// The executable of the sidecar is missing or cannot be executed.
    ExecutableNotFound { name: String, path: String },
    /// The operating system did not create the process.
    SpawnFailed { name: String, reason: String },
    /// The process runs but is not in the process group.
    GroupAttachFailed { name: String, error: GroupError },
    /// The log file could not be opened; output is still echoed.
    LogOpenFailed { path: String, reason: String },
    /// The process was gone when it was probed.
    EarlyExit { name: String, pid: u32, lines: Vec<DiagnosticLine> },
    /// The termination signal could not be delivered.
    KillFailed { name: String, pid: u32 },
}

/// A failure of the supervisor as a plain value.
pub enum ErrorView {
    ExecutableNotFound { name: Seq<char>, path: Seq<char> },
    SpawnFailed { name: Seq<char>, reason: Seq<char> },
    GroupAttachFailed { name: Seq<char>, error: GroupError },
    LogOpenFailed { path: Seq<char>, reason: Seq<char> },
    EarlyExit { name: Seq<char>, pid: u32, lines: Seq<LineView> },
    KillFailed { name: Seq<char>, pid: u32 },
}

impl View for SidecarError {
    type V = ErrorView;

    open spec fn view(&self) -> ErrorView {
        match self {
            SidecarError::ExecutableNotFound { name, path } => ErrorView::ExecutableNotFound {
                name: name@,
                path: path@,
            },
            SidecarError::SpawnFailed { name, reason } => ErrorView::SpawnFailed {
                name: name@,
                reason: reason@,
            },
            SidecarError::GroupAttachFailed { name, error } => ErrorView::GroupAttachFailed {
                name: name@,
                error: *error,
            },
            SidecarError::LogOpenFailed { path, reason } => ErrorView::LogOpenFailed {
                path: path@,
                reason: reason@,
            },
            SidecarError::EarlyExit { name, pid, lines } => ErrorView::EarlyExit {
                name: name@,
                pid: *pid,
                lines: line_views(lines@),
            },
            SidecarError::KillFailed { name, pid } => ErrorView::KillFailed {
                name: name@,
                pid: *pid,
            },
        }
    }
}

/// Whether a failure leaves the sidecar unusable. Such a failure is returned
/// to the caller of the start; the others are noted and the start goes on.
pub open spec fn is_fatal(error: ErrorView) -> bool {
    error is ExecutableNotFound || error is SpawnFailed || error is EarlyExit
}

/// The captured lines as they stand in the text of an early exit: each on a
/// line of its own, after its stream between brackets.
pub open spec fn quoted_lines(lines: Seq<LineView>) -> Seq<char>
    decreases lines.len(),
{
    if lines.len() == 0 {
        Seq::empty()
    } else {
        quoted_lines(lines.drop_last()) + "\n["@ + stream_tag(lines.last().stream) + "] "@
            + lines.last().text
    }
}

/// The text of a failure.
pub open spec fn error_text(error: ErrorView) -> Seq<char> {
    match error {
        ErrorView::ExecutableNotFound { name, path } => "sidecar "@ + name
            + ": executable not found: "@ + path,
        ErrorView::SpawnFailed { name, reason } => "sidecar "@ + name + ": failed to spawn: "@
            + reason,
        ErrorView::GroupAttachFailed { name, error } => "sidecar "@ + name + ": "@
            + group_error_text(error),
        ErrorView::LogOpenFailed { path, reason } => "failed to open log "@ + path + ": "@
            + reason,
        ErrorView::EarlyExit { name, pid, lines } => "sidecar "@ + name + " (pid "@ + decimal(
            pid as nat,
        ) + ") exited early:"@ + quoted_lines(lines),
        ErrorView::KillFailed { name, pid } => "sidecar "@ + name + " (pid "@ + decimal(
            pid as nat,
        ) + "): failed to terminate"@,
    }
}

/// The captured lines as they stand in the text of an early exit.
fn quote_lines(lines: &Vec<DiagnosticLine>) -> (text: String)
    ensures
        text@ == quoted_lines(line_views(lines@)),
{
    let mut text = String::new();
    let mut i: usize = 0;
    while i < lines.len()
        invariant
            i <= lines@.len(),
            text@ == quoted_lines(line_views(lines@).take(i as int)),
        decreases lines@.len() - i,
    {
        text.append("\n[");
        text.append(lines[i].stream.tag());
        text.append("] ");
        text.append(lines[i].text.as_str());
        proof {
            let all = line_views(lines@);
            assert(all.take(i + 1).drop_last() =~= all.take(i as int));
            assert(all.take(i + 1).last() == lines@[i as int]@);
        }
        i += 1;
    }
    assert(line_views(lines@).take(i as int) =~= line_views(lines@));
    text
}

impl SidecarError {
    /// A copy of this failure.
    pub fn copy(&self) -> (r: SidecarError)
        ensures
            r@ == self@,
    {
        match self {
            SidecarError::ExecutableNotFound { name, path } => SidecarError::ExecutableNotFound {
                name: name.clone(),
                path: path.clone(),
            },
            SidecarError::SpawnFailed { name, reason } => SidecarError::SpawnFailed {
                name: name.clone(),
                reason: reason.clone(),
            },
            SidecarError::GroupAttachFailed { name, error } => SidecarError::GroupAttachFailed {
                name: name.clone(),
                error: *error,
            },
            SidecarError::LogOpenFailed { path, reason } => SidecarError::LogOpenFailed {
                path: path.clone(),
                reason: reason.clone(),
            },
            SidecarError::EarlyExit { name, pid, lines } => SidecarError::EarlyExit {
                name: name.clone(),
                pid: *pid,
                lines: copy_lines(lines),
            },
            SidecarError::KillFailed { name, pid } => SidecarError::KillFailed {
                name: name.clone(),
                pid: *pid,
            },
        }
    }

    /// Whether this failure leaves the sidecar unusable.
    pub fn is_fatal(&self) -> (fatal: bool)
        ensures
            fatal == is_fatal(self@),
    {
        match self {
            SidecarError::ExecutableNotFound { .. } => true,
            SidecarError::SpawnFailed { .. } => true,
            SidecarError::EarlyExit { .. } => true,
            _ => false,
        }
    }

    /// The text of this failure.
    pub fn message(&self) -> (text: String)
        ensures
            text@ == error_text(self@),
    {
        match self {
            SidecarError::ExecutableNotFound { name, path } => {
                let mut text = "sidecar ".to_owned();
                text.append(name.as_str());
                text.append(": executable not found: ");
                text.append(path.as_str());
                text
            },
            SidecarError::SpawnFailed { name, reason } => {
                let mut text = "sidecar ".to_owned();
                text.append(name.as_str());
                text.append(": failed to spawn: ");
                text.append(reason.as_str());
                text
            },
            SidecarError::GroupAttachFailed { name, error } => {
                let mut text = "sidecar ".to_owned();
                text.append(name.as_str());
                text.append(": ");
                text.append(error.message().as_str());
                text
            },
            SidecarError::LogOpenFailed { path, reason } => {
                let mut text = "failed to open log ".to_owned();
                text.append(path.as_str());
                text.append(": ");
                text.append(reason.as_str());
                text
            },
            SidecarError::EarlyExit { name, pid, lines } => {
                let mut text = "sidecar ".to_owned();
                text.append(name.as_str());
                text.append(" (pid ");
                text.append(decimal_text(*pid).as_str());
                text.append(") exited early:");
                text.append(quote_lines(lines).as_str());
                text
            },
            SidecarError::KillFailed { name, pid } => {
                let mut text = "sidecar ".to_owned();
                text.append(name.as_str());
                text.append(" (pid ");
                text.append(decimal_text(*pid).as_str());
                text.append("): failed to terminate");
                text
            },
        }
    }
}

/// The failure to note for a sidecar whose joining of the process group
/// ended with `attached`: none where it joined, or where there is no group.
pub open spec fn attach_failure(name: Seq<char>, attached: Result<(), GroupError>) -> Option<
    ErrorView,
> {
    match attached {
        Ok(_) => None,
        Err(error) => Some(ErrorView::GroupAttachFailed { name, error }),
    }
}

/// The failure to note for a sidecar whose joining of the process group
/// ended with `attached`.
pub fn attach_error(name: &str, attached: Result<(), GroupError>) -> (noted: Option<SidecarError>)
    ensures
        match noted {
            Some(error) => attach_failure(name@, attached) == Some(error@),
            None => attach_failure(name@, attached) is None,
        },
{
    match attached {
        Ok(_) => None,
        Err(error) => Some(SidecarError::GroupAttachFailed { name: name.to_owned(), error }),
    }
}

/// The failure to note for a sidecar that was signalled to terminate: none
/// where the signal was delivered.
pub open spec fn kill_failure(name: Seq<char>, pid: u32, delivered: bool) -> Option<ErrorView> {
    if delivered {
        None
    } else {
        Some(ErrorView::KillFailed { name, pid })
    }
}

/// The failure to note for a sidecar that was signalled to terminate.
pub fn kill_error(name: &str, pid: u32, delivered: bool) -> (noted: Option<SidecarError>)
    ensures
        match noted {
            Some(error) => kill_failure(name@, pid, delivered) == Some(error@),
            None => kill_failure(name@, pid, delivered) is None,
        },
{
    if delivered {
        None
    } else {
        Some(SidecarError::KillFailed { name: name.to_owned(), pid })
    }
}

} // verus!
