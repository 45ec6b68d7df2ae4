//! Machines for the operations on single sessions: read, create, update and
//! remove.

use vstd::prelude::*;
use crate::data::{
    SessionRecord, SessionRecordView, decode_failure, decoded_session, encode_session, encoded_session,
};
use crate::error::{ErrorCode, SessionErrorView, not_found, not_found_message};
use crate::keys::{make_user_waits_key, session_entry_key, user_waits_key};
use crate::outside::{fresh_session_key, is_hyphenated_uuid};
use crate::protocol::{
    Command, CommandView, Outcome, OutcomeView, Reply, ReplyView, Step, StepView, codec_error_view,
    fail_finished, fail_on, failure_step, finished_step,
};
use crate::store::RedisSessionStore;
use crate::tenant::{
    TenantCtx, TenantView, alignment_failure, ensure_alignment, ensure_ctx_preserved,
    mismatch_error, preservation_failure,
};

verus! {

/// The error for a session key with no stored entry.
pub open spec fn not_found_error(key: Seq<char>) -> SessionErrorView {
    SessionErrorView { code: ErrorCode::NotFound, message: not_found_message(key) }
}

// ---------------------------------------------------------------------------
// Reading a session
// ---------------------------------------------------------------------------

/// Where a session read stands.
#[derive(Clone, Copy, Debug, PartialEq, Eq, Structural)]
pub enum GetPhase {
    Connecting,
    Reading,
    Finished,
}

/// Reads the session stored at an entry key: connect, read the payload,
/// decode it if present.
pub struct GetSession {
    entry_key: String,
    phase: GetPhase,
}

/// A session read as mathematical values.
pub struct GetSessionView {
    pub entry_key: Seq<char>,
    pub phase: GetPhase,
}

impl View for GetSession {
    type V = GetSessionView;

    closed spec fn view(&self) -> GetSessionView {
        GetSessionView { entry_key: self.entry_key@, phase: self.phase }
    }
}

/// What reading a stored payload gives: the session it decodes to, or the
/// decoding error.
pub open spec fn read_payload(p: Seq<char>) -> StepView {
    match decoded_session(p) {
        Some(d) => StepView::Finish(Ok(OutcomeView::Session(Some(d)))),
        None => StepView::Finish(Err(codec_error_view(decode_failure(p)))),
    }
}

impl GetSessionView {
    /// The read waiting for a connection to the entry at `entry_key`.
    pub open spec fn initial(entry_key: Seq<char>) -> GetSessionView {
        GetSessionView { entry_key, phase: GetPhase::Connecting }
    }

    /// The state and step that follow `r`.
    pub open spec fn next(self, r: ReplyView) -> (GetSessionView, StepView) {
        let done = GetSessionView { phase: GetPhase::Finished, ..self };
        match self.phase {
            GetPhase::Connecting => match r {
                ReplyView::Connected => (
                    GetSessionView { phase: GetPhase::Reading, ..self },
                    StepView::Issue(CommandView::Get { key: self.entry_key }),
                ),
                _ => (done, fail_on(r)),
            },
            GetPhase::Reading => match r {
                ReplyView::Value(None) => (done, StepView::Finish(Ok(OutcomeView::Session(None)))),
                ReplyView::Value(Some(p)) => (done, read_payload(p)),
                _ => (done, fail_on(r)),
            },
            GetPhase::Finished => (done, fail_finished()),
        }
    }
}

impl GetSession {
    /// Starts reading the session stored at `entry_key`.
    pub fn for_entry(entry_key: String) -> (r: (Self, Step))
        ensures
            r.0@ == GetSessionView::initial(entry_key@),
            r.1@ == StepView::Issue(CommandView::Connect),
    {
        (GetSession { entry_key, phase: GetPhase::Connecting }, Step::Issue(Command::Connect))
    }

    /// Starts reading session `key` of `store`.
    pub fn begin(store: &RedisSessionStore, key: &str) -> (r: (Self, Step))
        ensures
            r.0@ == GetSessionView::initial(session_entry_key(store.ns(), key@)),
            r.1@ == StepView::Issue(CommandView::Connect),
    {
        Self::for_entry(store.session_entry_key(key))
    }

    /// Takes the reply to the last command and gives the next step.
    pub fn step(&mut self, reply: Reply) -> (s: Step)
        ensures
            (final(self)@, s@) == old(self)@.next(reply@),
    {
        match self.phase {
            GetPhase::Connecting => match reply {
                Reply::Connected => {
                    self.phase = GetPhase::Reading;
                    Step::Issue(Command::Get { key: self.entry_key.clone() })
                },
                other => {
                    self.phase = GetPhase::Finished;
                    failure_step(other)
                },
            },
            GetPhase::Reading => match reply {
                Reply::Value(None) => {
                    self.phase = GetPhase::Finished;
                    Step::Finish(Ok(Outcome::Session(None)))
                },
                Reply::Value(Some(p)) => {
                    self.phase = GetPhase::Finished;
                    match RedisSessionStore::deserialize(p.as_str()) {
                        Ok(d) => Step::Finish(Ok(Outcome::Session(Some(d)))),
                        Err(e) => Step::Finish(Err(e)),
                    }
                },
                other => {
                    self.phase = GetPhase::Finished;
                    failure_step(other)
                },
            },
            GetPhase::Finished => finished_step(),
        }
    }
}

// ---------------------------------------------------------------------------
// Creating a session
// ---------------------------------------------------------------------------

/// Where a session creation stands.
#[derive(Clone, Copy, Debug, PartialEq, Eq, Structural)]
pub enum CreatePhase {
    Connecting,
    Writing,
    Finished,
}

/// Creates a session under a fresh key: encode the data, connect, store the
/// payload.
pub struct CreateSession {
    key: String,
    entry_key: String,
    payload: String,
    phase: CreatePhase,
}

/// A session creation as mathematical values.
pub struct CreateSessionView {
    pub key: Seq<char>,
    pub entry_key: Seq<char>,
    pub payload: Seq<char>,
    pub phase: CreatePhase,
}

impl View for CreateSession {
    type V = CreateSessionView;

    closed spec fn view(&self) -> CreateSessionView {
        CreateSessionView {
            key: self.key@,
            entry_key: self.entry_key@,
            payload: self.payload@,
            phase: self.phase,
        }
    }
}

impl CreateSessionView {
    /// The creation of session `key` of a store with namespace `ns`, whose
    /// data encodes to `payload`, waiting for a connection.
    pub open spec fn initial(ns: Seq<char>, key: Seq<char>, payload: Seq<char>) -> CreateSessionView {
        CreateSessionView {
            key,
            entry_key: session_entry_key(ns, key),
            payload,
            phase: CreatePhase::Connecting,
        }
    }

    /// The start of creating session `key` with `data`: encode the data and
    /// ask for a connection.
    pub open spec fn start(ns: Seq<char>, key: Seq<char>, data: SessionRecordView) -> (CreateSessionView, StepView) {
        (CreateSessionView::initial(ns, key, encoded_session(data)), StepView::Issue(CommandView::Connect))
    }

    /// The state and step that follow `r`.
    pub open spec fn next(self, r: ReplyView) -> (CreateSessionView, StepView) {
        let done = CreateSessionView { phase: CreatePhase::Finished, ..self };
        match self.phase {
            CreatePhase::Connecting => match r {
                ReplyView::Connected => (
                    CreateSessionView { phase: CreatePhase::Writing, ..self },
                    StepView::Issue(CommandView::Put { key: self.entry_key, value: self.payload }),
                ),
                _ => (done, fail_on(r)),
            },
            CreatePhase::Writing => match r {
                ReplyView::Done => (done, StepView::Finish(Ok(OutcomeView::Key(self.key)))),
                _ => (done, fail_on(r)),
            },
            CreatePhase::Finished => (done, fail_finished()),
        }
    }
}

impl CreateSession {
    /// Starts creating a session holding `data`, on behalf of caller context
    /// `ctx`, under a freshly drawn random key.
    pub fn begin(store: &RedisSessionStore, ctx: &TenantCtx, data: &SessionRecord) -> (r: (Self, Step))
        ensures
            alignment_failure(ctx@, data@.tenant_ctx) matches Some(reason) ==> {
                &&& r.0@.phase == CreatePhase::Finished
                &&& r.1@ == StepView::Finish(Err(mismatch_error(data@.tenant_ctx, ctx@, reason)))
            },
            alignment_failure(ctx@, data@.tenant_ctx) is None ==> {
                &&& is_hyphenated_uuid(r.0@.key)
                &&& (r.0@, r.1@) == CreateSessionView::start(store.ns(), r.0@.key, data@)
            },
    {
        match ensure_alignment(ctx, &data.tenant_ctx) {
            Err(e) => (
                CreateSession {
                    key: String::new(),
                    entry_key: String::new(),
                    payload: String::new(),
                    phase: CreatePhase::Finished,
                },
                Step::Finish(Err(e)),
            ),
            Ok(()) => Self::with_key(store, fresh_session_key(), data),
        }
    }

    /// Starts creating session `key` holding `data`, whose context was
    /// already checked.
    pub fn with_key(store: &RedisSessionStore, key: String, data: &SessionRecord) -> (r: (Self, Step))
        ensures
            (r.0@, r.1@) == CreateSessionView::start(store.ns(), key@, data@),
    {
        let entry_key = store.session_entry_key(key.as_str());
        let payload = encode_session(data);
        (CreateSession { key, entry_key, payload, phase: CreatePhase::Connecting }, Step::Issue(Command::Connect))
    }

    /// Takes the reply to the last command and gives the next step.
    pub fn step(&mut self, reply: Reply) -> (s: Step)
        ensures
            (final(self)@, s@) == old(self)@.next(reply@),
    {
        match self.phase {
            CreatePhase::Connecting => match reply {
                Reply::Connected => {
                    self.phase = CreatePhase::Writing;
                    Step::Issue(Command::Put { key: self.entry_key.clone(), value: self.payload.clone() })
                },
                other => {
                    self.phase = CreatePhase::Finished;
                    failure_step(other)
                },
            },
            CreatePhase::Writing => match reply {
                Reply::Done => {
                    self.phase = CreatePhase::Finished;
                    Step::Finish(Ok(Outcome::Key(self.key.clone())))
                },
                other => {
                    self.phase = CreatePhase::Finished;
                    failure_step(other)
                },
            },
            CreatePhase::Finished => finished_step(),
        }
    }
}

// ---------------------------------------------------------------------------
// Updating a session
// ---------------------------------------------------------------------------

/// Where a session update stands.
#[derive(Clone, Copy, Debug, PartialEq, Eq, Structural)]
pub enum UpdatePhase {
    Connecting,
    Reading,
    Writing,
    Finished,
}

/// Replaces the data of an existing session: read and decode the stored
/// data, check that the tenant context is preserved, encode and store the
/// new data.
pub struct UpdateSession {
    key: String,
    entry_key: String,
    candidate: SessionRecord,
    phase: UpdatePhase,
}

/// A session update as mathematical values.
pub struct UpdateSessionView {
    pub key: Seq<char>,
    pub entry_key: Seq<char>,
    pub candidate: SessionRecordView,
    pub phase: UpdatePhase,
}

impl View for UpdateSession {
    type V = UpdateSessionView;

    closed spec fn view(&self) -> UpdateSessionView {
        UpdateSessionView {
            key: self.key@,
            entry_key: self.entry_key@,
            candidate: self.candidate@,
            phase: self.phase,
        }
    }
}

impl UpdateSessionView {
    /// The update of session `key` with data `candidate`.
    pub open spec fn initial(ns: Seq<char>, key: Seq<char>, candidate: SessionRecordView) -> UpdateSessionView {
        UpdateSessionView {
            key,
            entry_key: session_entry_key(ns, key),
            candidate,
            phase: UpdatePhase::Connecting,
        }
    }

    /// What follows reading the stored payload `p`: decode it, check that
    /// the tenant context is kept, encode the new data and write it.
    pub open spec fn replace(self, p: Seq<char>) -> (UpdateSessionView, StepView) {
        let done = UpdateSessionView { phase: UpdatePhase::Finished, ..self };
        match decoded_session(p) {
            None => (done, StepView::Finish(Err(codec_error_view(decode_failure(p))))),
            Some(prev) => match preservation_failure(prev.tenant_ctx, self.candidate.tenant_ctx) {
                Some(reason) => (
                    done,
                    StepView::Finish(Err(mismatch_error(prev.tenant_ctx, self.candidate.tenant_ctx, reason))),
                ),
                None => (
                    UpdateSessionView { phase: UpdatePhase::Writing, ..self },
                    StepView::Issue(CommandView::Put { key: self.entry_key, value: encoded_session(self.candidate) }),
                ),
            },
        }
    }

    /// The state and step that follow `r`.
    pub open spec fn next(self, r: ReplyView) -> (UpdateSessionView, StepView) {
        let done = UpdateSessionView { phase: UpdatePhase::Finished, ..self };
        match self.phase {
            UpdatePhase::Connecting => match r {
                ReplyView::Connected => (
                    UpdateSessionView { phase: UpdatePhase::Reading, ..self },
                    StepView::Issue(CommandView::Get { key: self.entry_key }),
                ),
                _ => (done, fail_on(r)),
            },
            UpdatePhase::Reading => match r {
                ReplyView::Value(None) => (done, StepView::Finish(Err(not_found_error(self.key)))),
                ReplyView::Value(Some(p)) => self.replace(p),
                _ => (done, fail_on(r)),
            },
            UpdatePhase::Writing => match r {
                ReplyView::Done => (done, StepView::Finish(Ok(OutcomeView::Unit))),
                _ => (done, fail_on(r)),
            },
            UpdatePhase::Finished => (done, fail_finished()),
        }
    }
}

impl UpdateSession {
    /// Starts replacing the data of session `key` with `candidate`.
    pub fn begin(store: &RedisSessionStore, key: &str, candidate: SessionRecord) -> (r: (Self, Step))
        ensures
            r.0@ == UpdateSessionView::initial(store.ns(), key@, candidate@),
            r.1@ == StepView::Issue(CommandView::Connect),
    {
        let entry_key = store.session_entry_key(key);
        (
            UpdateSession {
                key: String::from_str(key),
                entry_key,
                candidate,
                phase: UpdatePhase::Connecting,
            },
            Step::Issue(Command::Connect),
        )
    }

    /// What follows reading the stored payload `p`.
    fn replace(&mut self, p: &str) -> (s: Step)
        ensures
            (final(self)@, s@) == old(self)@.replace(p@),
    {
        match RedisSessionStore::deserialize(p) {
            Err(e) => {
                self.phase = UpdatePhase::Finished;
                Step::Finish(Err(e))
            },
            Ok(prev) => match ensure_ctx_preserved(&prev.tenant_ctx, &self.candidate.tenant_ctx) {
                Err(e) => {
                    self.phase = UpdatePhase::Finished;
                    Step::Finish(Err(e))
                },
                Ok(()) => {
                    let p2 = encode_session(&self.candidate);
                    self.phase = UpdatePhase::Writing;
                    Step::Issue(Command::Put { key: self.entry_key.clone(), value: p2 })
                },
            },
        }
    }

    /// Takes the reply to the last command and gives the next step.
    pub fn step(&mut self, reply: Reply) -> (s: Step)
        ensures
            (final(self)@, s@) == old(self)@.next(reply@),
    {
        match self.phase {
            UpdatePhase::Connecting => match reply {
                Reply::Connected => {
                    self.phase = UpdatePhase::Reading;
                    Step::Issue(Command::Get { key: self.entry_key.clone() })
                },
                other => {
                    self.phase = UpdatePhase::Finished;
                    failure_step(other)
                },
            },
            UpdatePhase::Reading => match reply {
                Reply::Value(None) => {
                    self.phase = UpdatePhase::Finished;
                    Step::Finish(Err(not_found(self.key.as_str())))
                },
                Reply::Value(Some(p)) => self.replace(p.as_str()),
                other => {
                    self.phase = UpdatePhase::Finished;
                    failure_step(other)
                },
            },
            UpdatePhase::Writing => match reply {
                Reply::Done => {
                    self.phase = UpdatePhase::Finished;
                    Step::Finish(Ok(Outcome::Unit))
                },
                other => {
                    self.phase = UpdatePhase::Finished;
                    failure_step(other)
                },
            },
            UpdatePhase::Finished => finished_step(),
        }
    }
}

// ---------------------------------------------------------------------------
// Removing a session
// ---------------------------------------------------------------------------

/// Where a session removal stands.
#[derive(Clone, Copy, Debug, PartialEq, Eq, Structural)]
pub enum RemovePhase {
    Connecting,
    Reading,
    Deleting,
    Untracking,
    Finished,
}

/// Removes a session: read and decode it, delete its payload, and drop it
/// from its user's wait set when it names a user.
pub struct RemoveSession {
    key: String,
    entry_key: String,
    ns: String,
    waits_key: Option<String>,
    phase: RemovePhase,
}

/// A session removal as mathematical values.
pub struct RemoveSessionView {
    pub key: Seq<char>,
    pub entry_key: Seq<char>,
    pub ns: Seq<char>,
    pub waits_key: Option<Seq<char>>,
    pub phase: RemovePhase,
}

impl View for RemoveSession {
    type V = RemoveSessionView;

    closed spec fn view(&self) -> RemoveSessionView {
        RemoveSessionView {
            key: self.key@,
            entry_key: self.entry_key@,
            ns: self.ns@,
            waits_key: crate::tenant::opt_view(self.waits_key),
            phase: self.phase,
        }
    }
}

/// The wait set a stored session is tracked in: its user's, if it names one.
pub open spec fn tracked_in(ns: Seq<char>, stored: TenantView) -> Option<Seq<char>> {
    match stored.user_of() {
        Some(u) => Some(user_waits_key(ns, stored, u)),
        None => None,
    }
}

impl RemoveSessionView {
    /// The removal of session `key` from a store with namespace `ns`.
    pub open spec fn initial(ns: Seq<char>, key: Seq<char>) -> RemoveSessionView {
        RemoveSessionView {
            key,
            entry_key: session_entry_key(ns, key),
            ns,
            waits_key: None,
            phase: RemovePhase::Connecting,
        }
    }

    /// The state and step that follow `r`.
    pub open spec fn next(self, r: ReplyView) -> (RemoveSessionView, StepView) {
        let done = RemoveSessionView { phase: RemovePhase::Finished, ..self };
        match self.phase {
            RemovePhase::Connecting => match r {
                ReplyView::Connected => (
                    RemoveSessionView { phase: RemovePhase::Reading, ..self },
                    StepView::Issue(CommandView::Get { key: self.entry_key }),
                ),
                _ => (done, fail_on(r)),
            },
            RemovePhase::Reading => match r {
                ReplyView::Value(None) => (done, StepView::Finish(Err(not_found_error(self.key)))),
                ReplyView::Value(Some(p)) => match decoded_session(p) {
                    Some(stored) => (
                        RemoveSessionView {
                            waits_key: tracked_in(self.ns, stored.tenant_ctx),
                            phase: RemovePhase::Deleting,
                            ..self
                        },
                        StepView::Issue(CommandView::Delete { key: self.entry_key }),
                    ),
                    None => (done, StepView::Finish(Err(codec_error_view(decode_failure(p))))),
                },
                _ => (done, fail_on(r)),
            },
            RemovePhase::Deleting => match r {
                ReplyView::Done => match self.waits_key {
                    Some(w) => (
                        RemoveSessionView { phase: RemovePhase::Untracking, ..self },
                        StepView::Issue(CommandView::RemoveMember { key: w, member: self.key }),
                    ),
                    None => (done, StepView::Finish(Ok(OutcomeView::Unit))),
                },
                _ => (done, fail_on(r)),
            },
            RemovePhase::Untracking => match r {
                ReplyView::Done => (done, StepView::Finish(Ok(OutcomeView::Unit))),
                _ => (done, fail_on(r)),
            },
            RemovePhase::Finished => (done, fail_finished()),
        }
    }
}

impl RemoveSession {
    /// Starts removing session `key`.
    pub fn begin(store: &RedisSessionStore, key: &str) -> (r: (Self, Step))
        ensures
            r.0@ == RemoveSessionView::initial(store.ns(), key@),
            r.1@ == StepView::Issue(CommandView::Connect),
    {
        let entry_key = store.session_entry_key(key);
        (
            RemoveSession {
                key: String::from_str(key),
                entry_key,
                ns: store.namespace().clone(),
                waits_key: None,
                phase: RemovePhase::Connecting,
            },
            Step::Issue(Command::Connect),
        )
    }

    /// Takes the reply to the last command and gives the next step.
    pub fn step(&mut self, reply: Reply) -> (s: Step)
        ensures
            (final(self)@, s@) == old(self)@.next(reply@),
    {
        match self.phase {
            RemovePhase::Connecting => match reply {
                Reply::Connected => {
                    self.phase = RemovePhase::Reading;
                    Step::Issue(Command::Get { key: self.entry_key.clone() })
                },
                other => {
                    self.phase = RemovePhase::Finished;
                    failure_step(other)
                },
            },
            RemovePhase::Reading => match reply {
                Reply::Value(None) => {
                    self.phase = RemovePhase::Finished;
                    Step::Finish(Err(not_found(self.key.as_str())))
                },
                Reply::Value(Some(p)) => match RedisSessionStore::deserialize(p.as_str()) {
                    Ok(stored) => {
                        let ctx = &stored.tenant_ctx;
                        self.waits_key = match ctx.normalize_user() {
                            Some(u) => Some(make_user_waits_key(self.ns.as_str(), ctx, u.as_str())),
                            None => None,
                        };
                        self.phase = RemovePhase::Deleting;
                        Step::Issue(Command::Delete { key: self.entry_key.clone() })
                    },
                    Err(e) => {
                        self.phase = RemovePhase::Finished;
                        Step::Finish(Err(e))
                    },
                },
                other => {
                    self.phase = RemovePhase::Finished;
                    failure_step(other)
                },
            },
            RemovePhase::Deleting => match reply {
                Reply::Done => match &self.waits_key {
                    Some(w) => {
                        let cmd = Command::RemoveMember { key: w.clone(), member: self.key.clone() };
                        self.phase = RemovePhase::Untracking;
                        Step::Issue(cmd)
                    },
                    None => {
                        self.phase = RemovePhase::Finished;
                        Step::Finish(Ok(Outcome::Unit))
                    },
                },
                other => {
                    self.phase = RemovePhase::Finished;
                    failure_step(other)
                },
            },
            RemovePhase::Untracking => match reply {
                Reply::Done => {
                    self.phase = RemovePhase::Finished;
                    Step::Finish(Ok(Outcome::Unit))
                },
                other => {
                    self.phase = RemovePhase::Finished;
                    failure_step(other)
                },
            },
            RemovePhase::Finished => finished_step(),
        }
    }
}

} // verus!
