//! The status of a thread's setup, as clients see it.

use crate::text::str_eq;
use vstd::prelude::*;

verus! {

/// Failure categories exposed by asynchronous thread setup.
///
/// These values intentionally avoid carrying provider errors, paths, prompts,
/// tool data, or other setup details across the client boundary.
#[derive(Debug, Clone, Copy, PartialEq, Eq, Structural)]
pub enum ThreadSetupFailureCode {
    SetupFailed,
    Cancelled,
    TimedOut,
}

/// A sanitized asynchronous thread setup status.
#[derive(Debug, PartialEq, Eq)]
pub enum ThreadSetupStatus {
    /// Setup has started but has not reached a terminal state.
    Pending,
    /// Setup completed and resolved the canonical thread and host identities.
    Ready { thread_id: String, host_id: String },
    /// Setup stopped without exposing its internal failure details.
    Failed { code: ThreadSetupFailureCode },
}

/// What a [`ThreadSetupStatus`] holds.
pub enum ThreadSetupStatusView {
    Pending,
    Ready { thread_id: Seq<char>, host_id: Seq<char> },
    Failed { code: ThreadSetupFailureCode },
}

impl View for ThreadSetupStatus {
    type V = ThreadSetupStatusView;

    open spec fn view(&self) -> ThreadSetupStatusView {
        match *self {
            ThreadSetupStatus::Pending => ThreadSetupStatusView::Pending,
            ThreadSetupStatus::Ready { thread_id, host_id } => ThreadSetupStatusView::Ready {
                thread_id: thread_id@,
                host_id: host_id@,
            },
            ThreadSetupStatus::Failed { code } => ThreadSetupStatusView::Failed { code },
        }
    }
}

impl Clone for ThreadSetupStatus {
    fn clone(&self) -> (copy: Self)
        ensures
            copy == *self,
    {
        match self {
            ThreadSetupStatus::Pending => ThreadSetupStatus::Pending,
            ThreadSetupStatus::Ready { thread_id, host_id } => ThreadSetupStatus::Ready {
                thread_id: thread_id.clone(),
                host_id: host_id.clone(),
            },
            ThreadSetupStatus::Failed { code } => ThreadSetupStatus::Failed { code: *code },
        }
    }
}

impl ThreadSetupStatusView {
    /// The setup has come to an end.
    pub open spec fn terminal(self) -> bool {
        self !is Pending
    }
}

impl ThreadSetupStatus {
    /// Decides whether two statuses are the same status.
    pub fn same_as(&self, other: &ThreadSetupStatus) -> (same: bool)
        ensures
            same == (self@ == other@),
    {
        match (self, other) {
            (ThreadSetupStatus::Pending, ThreadSetupStatus::Pending) => true,
            (
                ThreadSetupStatus::Ready { thread_id, host_id },
                ThreadSetupStatus::Ready { thread_id: other_thread_id, host_id: other_host_id },
            ) => str_eq(thread_id.as_str(), other_thread_id.as_str()) && str_eq(
                host_id.as_str(),
                other_host_id.as_str(),
            ),
            (
                ThreadSetupStatus::Failed { code },
                ThreadSetupStatus::Failed { code: other_code },
            ) => *code == *other_code,
            _ => false,
        }
    }

    /// Decides whether the setup has come to an end.
    pub fn is_terminal(&self) -> (terminal: bool)
        ensures
            terminal == self@.terminal(),
    {
        match self {
            ThreadSetupStatus::Pending => false,
            _ => true,
        }
    }
}

/// Parameters for reading one connection-scoped asynchronous thread setup handle.
#[derive(Debug, PartialEq, Eq)]
pub struct ThreadSetupStatusReadParams {
    pub client_thread_id: String,
}

impl Clone for ThreadSetupStatusReadParams {
    fn clone(&self) -> (copy: Self)
        ensures
            copy == *self,
    {
        ThreadSetupStatusReadParams { client_thread_id: self.client_thread_id.clone() }
    }
}

/// Errors returned by the host-side setup handle.
///
/// Request handlers intentionally collapse all lookup and authorization errors
/// to one generic JSON-RPC error so callers cannot use the status API to probe
/// another connection's handles.
#[derive(Clone, Copy, Debug, Eq, PartialEq, Structural)]
pub enum ThreadSetupStatusError {
    InvalidHandle,
    UnknownHandle,
    AccessDenied,
    AlreadyCompleted,
    InvalidValue,
    TimedOut,
    Cancelled,
}

impl ThreadSetupStatusError {
    /// The error in words.
    pub open spec fn words(self) -> Seq<char> {
        match self {
            ThreadSetupStatusError::InvalidHandle => "invalid thread setup handle"@,
            ThreadSetupStatusError::UnknownHandle => "unknown thread setup handle"@,
            ThreadSetupStatusError::AccessDenied => "thread setup handle access denied"@,
            ThreadSetupStatusError::AlreadyCompleted => "thread setup already completed"@,
            ThreadSetupStatusError::InvalidValue => "invalid thread setup value"@,
            ThreadSetupStatusError::TimedOut => "thread setup wait timed out"@,
            ThreadSetupStatusError::Cancelled => "thread setup wait cancelled"@,
        }
    }

    /// The error in words.
    pub fn message(&self) -> (message: &'static str)
        ensures
            message@ == self.words(),
    {
        match self {
            ThreadSetupStatusError::InvalidHandle => "invalid thread setup handle",
            ThreadSetupStatusError::UnknownHandle => "unknown thread setup handle",
            ThreadSetupStatusError::AccessDenied => "thread setup handle access denied",
            ThreadSetupStatusError::AlreadyCompleted => "thread setup already completed",
            ThreadSetupStatusError::InvalidValue => "invalid thread setup value",
            ThreadSetupStatusError::TimedOut => "thread setup wait timed out",
            ThreadSetupStatusError::Cancelled => "thread setup wait cancelled",
        }
    }
}

/// The longest client thread identifier.
pub const MAX_CLIENT_THREAD_ID_LENGTH: usize = 128;

/// The longest resolved thread or host identifier.
pub const MAX_RESOLVED_ID_LENGTH: usize = 256;

/// A character that an identifier may hold: an ASCII letter or digit, or one of `-`, `_`, `.`,
/// `~` and `:`.
pub open spec fn identifier_char(c: char) -> bool {
    ||| 'a' <= c && c <= 'z'
    ||| 'A' <= c && c <= 'Z'
    ||| '0' <= c && c <= '9'
    ||| c == '-'
    ||| c == '_'
    ||| c == '.'
    ||| c == '~'
    ||| c == ':'
}

/// A text that is not empty, is no longer than `max_length`, and holds identifier characters only.
pub open spec fn valid_identifier(value: Seq<char>, max_length: int) -> bool {
    &&& 0 < value.len() <= max_length
    &&& forall|i: int| 0 <= i < value.len() ==> identifier_char(#[trigger] value[i])
}

/// A client thread identifier that is well formed.
pub open spec fn valid_client_thread_id(value: Seq<char>) -> bool {
    valid_identifier(value, MAX_CLIENT_THREAD_ID_LENGTH as int)
}

/// A resolved thread or host identifier that is well formed.
pub open spec fn valid_resolved_id(value: Seq<char>) -> bool {
    valid_identifier(value, MAX_RESOLVED_ID_LENGTH as int)
}

/// Decides whether a text is a well-formed identifier of at most `max_length` characters.
pub fn is_valid_identifier(value: &str, max_length: usize) -> (valid: bool)
    ensures
        valid == valid_identifier(value@, max_length as int),
{
    let mut length: usize = 0;
    for c in it: value.chars()
        invariant
            it.seq() == value@,
            length == it.index(),
            length <= max_length,
            forall|i: int| 0 <= i < it.index() ==> identifier_char(#[trigger] value@[i]),
    {
        if length == max_length {
            return false;
        }
        if !(('a' <= c && c <= 'z') || ('A' <= c && c <= 'Z') || ('0' <= c && c <= '9') || c == '-'
            || c == '_' || c == '.' || c == '~' || c == ':') {
            proof {
                assert(value@[length as int] == c);
            }
            return false;
        }
        length += 1;
    }
    length > 0
}

/// Decides whether a client thread identifier is well formed.
pub fn is_valid_client_thread_id(value: &str) -> (valid: bool)
    ensures
        valid == valid_client_thread_id(value@),
{
    is_valid_identifier(value, MAX_CLIENT_THREAD_ID_LENGTH)
}

/// Decides whether a resolved thread or host identifier is well formed.
pub fn is_valid_resolved_id(value: &str) -> (valid: bool)
    ensures
        valid == valid_resolved_id(value@),
{
    is_valid_identifier(value, MAX_RESOLVED_ID_LENGTH)
}

} // verus!
