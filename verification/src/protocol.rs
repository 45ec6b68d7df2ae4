//! The conversation between a session operation and its backend.
//!
//! Each store operation is a machine: it issues one command at a time, and
//! the caller performs the command against Redis and hands the reply
//! back, until the machine finishes with a result. Payloads are encoded
//! and decoded by the machines themselves.

use vstd::prelude::*;
use crate::error::{ErrorCode, SessionError, SessionErrorView, SessionResult};
use crate::data::{SessionRecord, SessionRecordView};
use crate::tenant::opt_view;

verus! {

/// One unit of outside work that an operation asks for.
#[derive(Debug)]
pub enum Command {
    /// Open a connection to the backend.
    Connect,
    /// Read the string stored at `key`.
    Get { key: String },
    /// Store `value` at `key`.
    Put { key: String, value: String },
    /// Delete `key`.
    Delete { key: String },
    /// Add `member` to the set at `key`.
    AddMember { key: String, member: String },
    /// Remove `member` from the set at `key`.
    RemoveMember { key: String, member: String },
    /// Read the members of the set at `key`.
    ListMembers { key: String },
    /// Let `key` expire after `millis` milliseconds.
    ExpireAfter { key: String, millis: i64 },
}

/// A command as mathematical values.
pub enum CommandView {
    Connect,
    Get { key: Seq<char> },
    Put { key: Seq<char>, value: Seq<char> },
    Delete { key: Seq<char> },
    AddMember { key: Seq<char>, member: Seq<char> },
    RemoveMember { key: Seq<char>, member: Seq<char> },
    ListMembers { key: Seq<char> },
    ExpireAfter { key: Seq<char>, millis: i64 },
}

impl View for Command {
    type V = CommandView;

    open spec fn view(&self) -> CommandView {
        match self {
            Command::Connect => CommandView::Connect,
            Command::Get { key } => CommandView::Get { key: key@ },
            Command::Put { key, value } => CommandView::Put { key: key@, value: value@ },
            Command::Delete { key } => CommandView::Delete { key: key@ },
            Command::AddMember { key, member } => CommandView::AddMember { key: key@, member: member@ },
            Command::RemoveMember { key, member } => CommandView::RemoveMember { key: key@, member: member@ },
            Command::ListMembers { key } => CommandView::ListMembers { key: key@ },
            Command::ExpireAfter { key, millis } => CommandView::ExpireAfter { key: key@, millis: *millis },
        }
    }
}

/// What performing a command gave back.
#[derive(Debug)]
pub enum Reply {
    /// A connection is open.
    Connected,
    /// A write command succeeded.
    Done,
    /// The string at the key read, if any.
    Value(Option<String>),
    /// The members of the set read.
    Members(Vec<String>),
    /// The backend reported an error, with its message.
    StoreFailed(String),
}

/// The views of a sequence of strings.
pub open spec fn strs_view(v: Seq<String>) -> Seq<Seq<char>> {
    v.map_values(|s: String| s@)
}

/// A reply as mathematical values.
pub enum ReplyView {
    Connected,
    Done,
    Value(Option<Seq<char>>),
    Members(Seq<Seq<char>>),
    StoreFailed(Seq<char>),
}

impl View for Reply {
    type V = ReplyView;

    open spec fn view(&self) -> ReplyView {
        match self {
            Reply::Connected => ReplyView::Connected,
            Reply::Done => ReplyView::Done,
            Reply::Value(v) => ReplyView::Value(opt_view(*v)),
            Reply::Members(m) => ReplyView::Members(strs_view(m@)),
            Reply::StoreFailed(m) => ReplyView::StoreFailed(m@),
        }
    }
}

/// What a finished operation returns.
#[derive(Debug)]
pub enum Outcome {
    /// The key of a created session.
    Key(String),
    /// The read session, if one is stored.
    Session(Option<SessionRecord>),
    /// The operation returns nothing.
    Unit,
    /// The key of the session waiting on a scope, if any.
    MaybeKey(Option<String>),
    /// The keys of the sessions a user waits on.
    Keys(Vec<String>),
    /// The single session a user waits on, if any, with its data.
    MaybeSession(Option<(String, SessionRecord)>),
}

/// An outcome as mathematical values.
pub enum OutcomeView {
    Key(Seq<char>),
    Session(Option<SessionRecordView>),
    Unit,
    MaybeKey(Option<Seq<char>>),
    Keys(Seq<Seq<char>>),
    MaybeSession(Option<(Seq<char>, SessionRecordView)>),
}

impl View for Outcome {
    type V = OutcomeView;

    open spec fn view(&self) -> OutcomeView {
        match self {
            Outcome::Key(k) => OutcomeView::Key(k@),
            Outcome::Session(None) => OutcomeView::Session(None),
            Outcome::Session(Some(c)) => OutcomeView::Session(Some(c@)),
            Outcome::Unit => OutcomeView::Unit,
            Outcome::MaybeKey(k) => OutcomeView::MaybeKey(opt_view(*k)),
            Outcome::Keys(ks) => OutcomeView::Keys(strs_view(ks@)),
            Outcome::MaybeSession(None) => OutcomeView::MaybeSession(None),
            Outcome::MaybeSession(Some((k, c))) => OutcomeView::MaybeSession(Some((k@, c@))),
        }
    }
}

/// What a machine does next: ask for a command, or finish.
#[derive(Debug)]
pub enum Step {
    Issue(Command),
    Finish(SessionResult<Outcome>),
}

/// A step as mathematical values.
pub enum StepView {
    Issue(CommandView),
    Finish(Result<OutcomeView, SessionErrorView>),
}

impl View for Step {
    type V = StepView;

    open spec fn view(&self) -> StepView {
        match self {
            Step::Issue(c) => StepView::Issue(c@),
            Step::Finish(Ok(o)) => StepView::Finish(Ok(o@)),
            Step::Finish(Err(e)) => StepView::Finish(Err(e@)),
        }
    }
}

/// The error for a reply that does not answer the command issued.
pub open spec fn unexpected_reply_error() -> SessionErrorView {
    SessionErrorView { code: ErrorCode::Internal, message: "unexpected reply from the session backend"@ }
}

/// The error for a step asked of a machine that has finished.
pub open spec fn finished_error() -> SessionErrorView {
    SessionErrorView { code: ErrorCode::Internal, message: "session operation already finished"@ }
}

/// The error a machine finishes with when a reply is a failure or does
/// not answer the command issued.
pub open spec fn reply_failure(r: ReplyView) -> SessionErrorView {
    match r {
        ReplyView::StoreFailed(m) => SessionErrorView { code: ErrorCode::Unavailable, message: m },
        _ => unexpected_reply_error(),
    }
}

/// Finishing with the error for a reply that is a failure or unexpected.
pub open spec fn fail_on(r: ReplyView) -> StepView {
    StepView::Finish(Err(reply_failure(r)))
}

/// Finishing with an error because the machine has finished already.
pub open spec fn fail_finished() -> StepView {
    StepView::Finish(Err(finished_error()))
}

/// The step that finishes with the error a failed or unexpected reply calls for.
pub fn failure_step(reply: Reply) -> (s: Step)
    ensures
        s@ == fail_on(reply@),
{
    let e = match reply {
        Reply::StoreFailed(m) => SessionError { code: ErrorCode::Unavailable, message: m },
        _ => SessionError {
            code: ErrorCode::Internal,
            message: String::from_str("unexpected reply from the session backend"),
        },
    };
    Step::Finish(Err(e))
}

/// The step of a machine asked to go on after it has finished.
pub fn finished_step() -> (s: Step)
    ensures
        s@ == fail_finished(),
{
    Step::Finish(Err(SessionError {
        code: ErrorCode::Internal,
        message: String::from_str("session operation already finished"),
    }))
}

/// The expiry in milliseconds sent for a time-to-live of `ms` milliseconds:
/// at least one, at most `i64::MAX`.
pub open spec fn ttl_clamp(ms: u128) -> i64 {
    if ms < 1 {
        1
    } else if ms > i64::MAX as u128 {
        i64::MAX
    } else {
        ms as i64
    }
}

/// The expiry command for `key`, when a time-to-live is given.
pub fn apply_ttl(key: &String, ttl_ms: Option<u128>) -> (r: Option<Command>)
    ensures
        r is None <==> ttl_ms is None,
        ttl_ms matches Some(t) ==> r matches Some(c) && c@ == (CommandView::ExpireAfter {
            key: key@,
            millis: ttl_clamp(t),
        }),
{
    match ttl_ms {
        Some(ms) => {
            let ms = if ms < 1 { 1 } else { ms };
            let millis: i64 = if ms > i64::MAX as u128 { i64::MAX } else { ms as i64 };
            Some(Command::ExpireAfter { key: key.clone(), millis })
        },
        None => None,
    }
}


/// The error for a payload that does not encode or decode, with the codec's message.
pub open spec fn codec_error_view(m: Seq<char>) -> SessionErrorView {
    SessionErrorView { code: ErrorCode::Internal, message: m }
}

/// Finishing with the error for an answer that does not fit the command issued.
pub open spec fn fail_unexpected() -> StepView {
    StepView::Finish(Err(unexpected_reply_error()))
}

/// The step that finishes with the error for an answer that does not fit.
pub fn unexpected_step() -> (s: Step)
    ensures
        s@ == fail_unexpected(),
{
    Step::Finish(Err(SessionError {
        code: ErrorCode::Internal,
        message: String::from_str("unexpected reply from the session backend"),
    }))
}

/// An expiry sent to the backend is never shorter than one millisecond
/// and never exceeds `i64::MAX` milliseconds; a time-to-live in that range
/// is sent as it is.
pub proof fn lemma_ttl_clamp(ms: u128)
    ensures
        1 <= ttl_clamp(ms) <= i64::MAX,
        1 <= ms <= i64::MAX ==> ttl_clamp(ms) == ms,
{
}

} // verus!
