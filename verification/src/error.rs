//! Errors reported by session stores.

use vstd::prelude::*;

verus! {

/// Canonical error codes shared with the Greentic platform.
#[derive(Clone, Copy, Debug, PartialEq, Eq, Structural)]
pub enum ErrorCode {
    /// Unclassified error.
    Unknown,
    /// Invalid input supplied by the caller.
    InvalidInput,
    /// Required entity was not found.
    NotFound,
    /// Operation conflicts with existing data.
    Conflict,
    /// Operation timed out.
    Timeout,
    /// Caller is not authenticated.
    Unauthenticated,
    /// Caller lacks permissions.
    PermissionDenied,
    /// Requests throttled by rate limits.
    RateLimited,
    /// External dependency unavailable.
    Unavailable,
    /// Internal platform error.
    Internal,
}

/// An error with a machine-readable code and a human-readable message.
#[derive(Debug)]
pub struct SessionError {
    pub code: ErrorCode,
    pub message: String,
}

/// What an error says, as mathematical values.
pub struct SessionErrorView {
    pub code: ErrorCode,
    pub message: Seq<char>,
}

impl View for SessionError {
    type V = SessionErrorView;

    open spec fn view(&self) -> SessionErrorView {
        SessionErrorView { code: self.code, message: self.message@ }
    }
}

/// Result alias for session store operations.
pub type SessionResult<T> = Result<T, SessionError>;

/// The message of a "session not found" error for the given key.
pub open spec fn not_found_message(key: Seq<char>) -> Seq<char> {
    "session not found: "@ + key
}

/// An error for caller input that breaks a rule of the store.
pub fn invalid_argument(message: String) -> (e: SessionError)
    ensures
        e.code == ErrorCode::InvalidInput,
        e.message@ == message@,
{
    SessionError { code: ErrorCode::InvalidInput, message }
}

/// An error for a session key that has no stored entry.
pub fn not_found(key: &str) -> (e: SessionError)
    ensures
        e.code == ErrorCode::NotFound,
        e.message@ == not_found_message(key@),
{
    let mut message = String::from_str("session not found: ");
    message.append(key);
    SessionError { code: ErrorCode::NotFound, message }
}

/// An error reported by the backing key-value service.
pub fn store_error(message: String) -> (e: SessionError)
    ensures
        e.code == ErrorCode::Unavailable,
        e.message@ == message@,
{
    SessionError { code: ErrorCode::Unavailable, message }
}

/// An error raised while encoding or decoding a stored session payload.
pub fn codec_error(message: String) -> (e: SessionError)
    ensures
        e.code == ErrorCode::Internal,
        e.message@ == message@,
{
    SessionError { code: ErrorCode::Internal, message }
}

} // verus!
