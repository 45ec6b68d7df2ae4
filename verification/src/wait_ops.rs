//! Machines for the operations on waits: a user's session parked until a
//! reply arrives in a given scope.

use vstd::prelude::*;
use crate::error::{ErrorCode, SessionErrorView, invalid_argument, not_found};
use crate::keys::{make_session_entry_key, scope_wait_key, session_entry_key, user_waits_key};
use crate::protocol::{
    Command, CommandView, Outcome, OutcomeView, Reply, ReplyView, Step, StepView, apply_ttl,
    fail_finished, fail_on, fail_unexpected, failure_step, finished_step, strs_view, ttl_clamp,
    unexpected_step,
};
use crate::scope::ReplyScope;
use crate::session_ops::{GetSession, GetSessionView, not_found_error};
use crate::store::{RedisSessionStore, scope_hash_view};
use crate::data::{SessionRecord, SessionRecordView, encode_session, encoded_session};
use crate::tenant::{
    TenantCtx, TenantView, alignment_failure, ensure_alignment, ensure_user_matches,
    mismatch_error, opt_view, wait_belongs_to, wait_matches, wait_user_failure,
};

verus! {

// ---------------------------------------------------------------------------
// Registering a wait
// ---------------------------------------------------------------------------

/// Where a wait registration stands.
#[derive(Clone, Copy, Debug, PartialEq, Eq, Structural)]
pub enum RegisterPhase {
    Connecting,
    WritingEntry,
    ExpiringEntry,
    Tracking,
    ReadingScope,
    WritingScope,
    ExpiringScope,
    Untracking,
    Finished,
}

/// Parks a session until a reply arrives in a scope: store its payload,
/// add it to the user's wait set, point the scope at it, and drop from the
/// wait set a different session the scope pointed at before.
pub struct RegisterWait {
    session_key: String,
    entry_key: String,
    waits_key: String,
    scope_key: String,
    ttl_ms: Option<u128>,
    data: SessionRecord,
    previous: Option<String>,
    phase: RegisterPhase,
}

/// A wait registration as mathematical values.
pub struct RegisterWaitView {
    pub session_key: Seq<char>,
    pub entry_key: Seq<char>,
    pub waits_key: Seq<char>,
    pub scope_key: Seq<char>,
    pub ttl_ms: Option<u128>,
    pub data: SessionRecordView,
    pub previous: Option<Seq<char>>,
    pub phase: RegisterPhase,
}

impl View for RegisterWait {
    type V = RegisterWaitView;

    closed spec fn view(&self) -> RegisterWaitView {
        RegisterWaitView {
            session_key: self.session_key@,
            entry_key: self.entry_key@,
            waits_key: self.waits_key@,
            scope_key: self.scope_key@,
            ttl_ms: self.ttl_ms,
            data: self.data@,
            previous: opt_view(self.previous),
            phase: self.phase,
        }
    }
}

impl RegisterWaitView {
    /// The registration of session `session_key` as the wait of `user` in
    /// context `ctx` for the scope with hash `hash`.
    pub open spec fn initial(
        ns: Seq<char>,
        ctx: TenantView,
        user: Seq<char>,
        hash: Seq<char>,
        session_key: Seq<char>,
        ttl_ms: Option<u128>,
        data: SessionRecordView,
    ) -> RegisterWaitView {
        RegisterWaitView {
            session_key,
            entry_key: session_entry_key(ns, session_key),
            waits_key: user_waits_key(ns, ctx, user),
            scope_key: scope_wait_key(ns, ctx, user, hash),
            ttl_ms,
            data,
            previous: None,
            phase: RegisterPhase::Connecting,
        }
    }

    /// Adding the session to the user's wait set.
    pub open spec fn track(self) -> (RegisterWaitView, StepView) {
        (
            RegisterWaitView { phase: RegisterPhase::Tracking, ..self },
            StepView::Issue(CommandView::AddMember { key: self.waits_key, member: self.session_key }),
        )
    }

    /// What follows the write of the payload: its expiry, if a time-to-live
    /// is given, else tracking.
    pub open spec fn after_entry(self) -> (RegisterWaitView, StepView) {
        match self.ttl_ms {
            Some(t) => (
                RegisterWaitView { phase: RegisterPhase::ExpiringEntry, ..self },
                StepView::Issue(CommandView::ExpireAfter { key: self.entry_key, millis: ttl_clamp(t) }),
            ),
            None => self.track(),
        }
    }

    /// What follows pointing the scope at the session: dropping a different
    /// session the scope named before from the wait set, or finishing.
    pub open spec fn settle(self) -> (RegisterWaitView, StepView) {
        match self.previous {
            Some(p) => if p != self.session_key {
                (
                    RegisterWaitView { phase: RegisterPhase::Untracking, ..self },
                    StepView::Issue(CommandView::RemoveMember { key: self.waits_key, member: p }),
                )
            } else {
                (RegisterWaitView { phase: RegisterPhase::Finished, ..self }, StepView::Finish(Ok(OutcomeView::Unit)))
            },
            None => (RegisterWaitView { phase: RegisterPhase::Finished, ..self }, StepView::Finish(Ok(OutcomeView::Unit))),
        }
    }

    /// What follows the write of the scope key: its expiry, if a
    /// time-to-live is given, else settling.
    pub open spec fn after_scope(self) -> (RegisterWaitView, StepView) {
        match self.ttl_ms {
            Some(t) => (
                RegisterWaitView { phase: RegisterPhase::ExpiringScope, ..self },
                StepView::Issue(CommandView::ExpireAfter { key: self.scope_key, millis: ttl_clamp(t) }),
            ),
            None => self.settle(),
        }
    }

    /// The state and step that follow `r`.
    pub open spec fn next(self, r: ReplyView) -> (RegisterWaitView, StepView) {
        let done = RegisterWaitView { phase: RegisterPhase::Finished, ..self };
        match self.phase {
            RegisterPhase::Connecting => match r {
                ReplyView::Connected => (
                    RegisterWaitView { phase: RegisterPhase::WritingEntry, ..self },
                    StepView::Issue(CommandView::Put { key: self.entry_key, value: encoded_session(self.data) }),
                ),
                _ => (done, fail_on(r)),
            },
            RegisterPhase::WritingEntry => match r {
                ReplyView::Done => self.after_entry(),
                _ => (done, fail_on(r)),
            },
            RegisterPhase::ExpiringEntry => match r {
                ReplyView::Done => self.track(),
                _ => (done, fail_on(r)),
            },
            RegisterPhase::Tracking => match r {
                ReplyView::Done => (
                    RegisterWaitView { phase: RegisterPhase::ReadingScope, ..self },
                    StepView::Issue(CommandView::Get { key: self.scope_key }),
                ),
                _ => (done, fail_on(r)),
            },
            RegisterPhase::ReadingScope => match r {
                ReplyView::Value(prev) => (
                    RegisterWaitView { previous: prev, phase: RegisterPhase::WritingScope, ..self },
                    StepView::Issue(CommandView::Put { key: self.scope_key, value: self.session_key }),
                ),
                _ => (done, fail_on(r)),
            },
            RegisterPhase::WritingScope => match r {
                ReplyView::Done => self.after_scope(),
                _ => (done, fail_on(r)),
            },
            RegisterPhase::ExpiringScope => match r {
                ReplyView::Done => self.settle(),
                _ => (done, fail_on(r)),
            },
            RegisterPhase::Untracking => match r {
                ReplyView::Done => (done, StepView::Finish(Ok(OutcomeView::Unit))),
                _ => (done, fail_on(r)),
            },
            RegisterPhase::Finished => (done, fail_finished()),
        }
    }
}

impl RegisterWait {
    /// Starts registering session `session_key`, holding `data`, as the wait
    /// of `user` in caller context `ctx` for `scope`.
    /// A time-to-live, in milliseconds, makes the payload and the scope key
    /// expire.
    pub fn begin(
        store: &RedisSessionStore,
        ctx: &TenantCtx,
        user: &String,
        scope: &ReplyScope,
        session_key: &str,
        data: SessionRecord,
        ttl_ms: Option<u128>,
    ) -> (r: (Self, Step))
        ensures
            alignment_failure(ctx@, data@.tenant_ctx) matches Some(reason) ==> {
                &&& r.0@.phase == RegisterPhase::Finished
                &&& r.1@ == StepView::Finish(Err(mismatch_error(data@.tenant_ctx, ctx@, reason)))
            },
            alignment_failure(ctx@, data@.tenant_ctx) is None ==> (wait_user_failure(ctx@, user@, data@.tenant_ctx) matches Some(m) ==> {
                &&& r.0@.phase == RegisterPhase::Finished
                &&& r.1@ == StepView::Finish(Err(SessionErrorView { code: ErrorCode::InvalidInput, message: m }))
            }),
            alignment_failure(ctx@, data@.tenant_ctx) is None && wait_user_failure(ctx@, user@, data@.tenant_ctx) is None ==> {
                &&& r.0@ == RegisterWaitView::initial(
                    store.ns(),
                    ctx@,
                    user@,
                    scope_hash_view(scope@),
                    session_key@,
                    ttl_ms,
                    data@,
                )
                &&& r.1@ == StepView::Issue(CommandView::Connect)
            },
    {
        let checked = match ensure_alignment(ctx, &data.tenant_ctx) {
            Ok(()) => ensure_user_matches(ctx, user, &data.tenant_ctx),
            Err(e) => Err(e),
        };
        match checked {
            Err(e) => (
                RegisterWait {
                    session_key: String::new(),
                    entry_key: String::new(),
                    waits_key: String::new(),
                    scope_key: String::new(),
                    ttl_ms,
                    data,
                    previous: None,
                    phase: RegisterPhase::Finished,
                },
                Step::Finish(Err(e)),
            ),
            Ok(()) => (
                RegisterWait {
                    session_key: String::from_str(session_key),
                    entry_key: store.session_entry_key(session_key),
                    waits_key: store.user_waits_key(ctx, user.as_str()),
                    scope_key: store.scope_wait_key(ctx, user.as_str(), scope),
                    ttl_ms,
                    data,
                    previous: None,
                    phase: RegisterPhase::Connecting,
                },
                Step::Issue(Command::Connect),
            ),
        }
    }

    /// Adding the session to the user's wait set.
    fn track(&mut self) -> (s: Step)
        ensures
            (final(self)@, s@) == old(self)@.track(),
    {
        self.phase = RegisterPhase::Tracking;
        Step::Issue(Command::AddMember { key: self.waits_key.clone(), member: self.session_key.clone() })
    }

    /// What follows the write of the payload.
    fn after_entry(&mut self) -> (s: Step)
        ensures
            (final(self)@, s@) == old(self)@.after_entry(),
    {
        match apply_ttl(&self.entry_key, self.ttl_ms) {
            Some(c) => {
                self.phase = RegisterPhase::ExpiringEntry;
                Step::Issue(c)
            },
            None => self.track(),
        }
    }

    /// What follows pointing the scope at the session.
    fn settle(&mut self) -> (s: Step)
        ensures
            (final(self)@, s@) == old(self)@.settle(),
    {
        let differs = match &self.previous {
            Some(p) => !p.eq(&self.session_key),
            None => false,
        };
        if differs {
            let p = match &self.previous {
                Some(p) => p.clone(),
                None => String::new(),
            };
            self.phase = RegisterPhase::Untracking;
            Step::Issue(Command::RemoveMember { key: self.waits_key.clone(), member: p })
        } else {
            self.phase = RegisterPhase::Finished;
            Step::Finish(Ok(Outcome::Unit))
        }
    }

    /// What follows the write of the scope key.
    fn after_scope(&mut self) -> (s: Step)
        ensures
            (final(self)@, s@) == old(self)@.after_scope(),
    {
        match apply_ttl(&self.scope_key, self.ttl_ms) {
            Some(c) => {
                self.phase = RegisterPhase::ExpiringScope;
                Step::Issue(c)
            },
            None => self.settle(),
        }
    }

    /// Takes the reply to the last command and gives the next step.
    pub fn step(&mut self, reply: Reply) -> (s: Step)
        ensures
            (final(self)@, s@) == old(self)@.next(reply@),
    {
        match self.phase {
            RegisterPhase::Connecting => match reply {
                Reply::Connected => {
                    let p = encode_session(&self.data);
                    self.phase = RegisterPhase::WritingEntry;
                    Step::Issue(Command::Put { key: self.entry_key.clone(), value: p })
                },
                other => {
                    self.phase = RegisterPhase::Finished;
                    failure_step(other)
                },
            },
            RegisterPhase::WritingEntry => match reply {
                Reply::Done => self.after_entry(),
                other => {
                    self.phase = RegisterPhase::Finished;
                    failure_step(other)
                },
            },
            RegisterPhase::ExpiringEntry => match reply {
                Reply::Done => self.track(),
                other => {
                    self.phase = RegisterPhase::Finished;
                    failure_step(other)
                },
            },
            RegisterPhase::Tracking => match reply {
                Reply::Done => {
                    self.phase = RegisterPhase::ReadingScope;
                    Step::Issue(Command::Get { key: self.scope_key.clone() })
                },
                other => {
                    self.phase = RegisterPhase::Finished;
                    failure_step(other)
                },
            },
            RegisterPhase::ReadingScope => match reply {
                Reply::Value(prev) => {
                    self.previous = prev;
                    self.phase = RegisterPhase::WritingScope;
                    Step::Issue(Command::Put { key: self.scope_key.clone(), value: self.session_key.clone() })
                },
                other => {
                    self.phase = RegisterPhase::Finished;
                    failure_step(other)
                },
            },
            RegisterPhase::WritingScope => match reply {
                Reply::Done => self.after_scope(),
                other => {
                    self.phase = RegisterPhase::Finished;
                    failure_step(other)
                },
            },
            RegisterPhase::ExpiringScope => match reply {
                Reply::Done => self.settle(),
                other => {
                    self.phase = RegisterPhase::Finished;
                    failure_step(other)
                },
            },
            RegisterPhase::Untracking => match reply {
                Reply::Done => {
                    self.phase = RegisterPhase::Finished;
                    Step::Finish(Ok(Outcome::Unit))
                },
                other => {
                    self.phase = RegisterPhase::Finished;
                    failure_step(other)
                },
            },
            RegisterPhase::Finished => finished_step(),
        }
    }
}


// ---------------------------------------------------------------------------
// Finding the wait of a scope
// ---------------------------------------------------------------------------

/// Where a scope lookup stands.
#[derive(Clone, Copy, Debug, PartialEq, Eq, Structural)]
pub enum FindPhase {
    Connecting,
    ReadingScope,
    Loading,
    DeletingScope,
    Untracking,
    Finished,
}

/// Finds the session waiting on a scope: read the scope key, load the
/// session it names, and answer it if it still belongs to the caller's
/// tenant, team and user; otherwise drop the stale scope key and wait-set
/// entry and answer nothing.
pub struct FindWaitByScope {
    ns: String,
    ctx: TenantCtx,
    user: String,
    scope_key: String,
    waits_key: String,
    raw: String,
    get: GetSession,
    phase: FindPhase,
}

/// A scope lookup as mathematical values.
pub struct FindWaitByScopeView {
    pub ns: Seq<char>,
    pub ctx: TenantView,
    pub user: Seq<char>,
    pub scope_key: Seq<char>,
    pub waits_key: Seq<char>,
    pub raw: Seq<char>,
    pub get: GetSessionView,
    pub phase: FindPhase,
}

impl View for FindWaitByScope {
    type V = FindWaitByScopeView;

    closed spec fn view(&self) -> FindWaitByScopeView {
        FindWaitByScopeView {
            ns: self.ns@,
            ctx: self.ctx@,
            user: self.user@,
            scope_key: self.scope_key@,
            waits_key: self.waits_key@,
            raw: self.raw@,
            get: self.get@,
            phase: self.phase,
        }
    }
}

impl FindWaitByScopeView {
    /// The lookup of the wait of `user` in `ctx` for the scope with hash `hash`.
    pub open spec fn initial(ns: Seq<char>, ctx: TenantView, user: Seq<char>, hash: Seq<char>) -> FindWaitByScopeView {
        FindWaitByScopeView {
            ns,
            ctx,
            user,
            scope_key: scope_wait_key(ns, ctx, user, hash),
            waits_key: user_waits_key(ns, ctx, user),
            raw: Seq::empty(),
            get: GetSessionView::initial(Seq::empty()),
            phase: FindPhase::Connecting,
        }
    }

    /// Dropping the scope key of a session that no longer answers.
    pub open spec fn drop_scope(self, get: GetSessionView) -> (FindWaitByScopeView, StepView) {
        (
            FindWaitByScopeView { get, phase: FindPhase::DeletingScope, ..self },
            StepView::Issue(CommandView::Delete { key: self.scope_key }),
        )
    }

    /// The state and step that follow `r`.
    pub open spec fn next(self, r: ReplyView) -> (FindWaitByScopeView, StepView) {
        let done = FindWaitByScopeView { phase: FindPhase::Finished, ..self };
        match self.phase {
            FindPhase::Connecting => match r {
                ReplyView::Connected => (
                    FindWaitByScopeView { phase: FindPhase::ReadingScope, ..self },
                    StepView::Issue(CommandView::Get { key: self.scope_key }),
                ),
                _ => (done, fail_on(r)),
            },
            FindPhase::ReadingScope => match r {
                ReplyView::Value(None) => (done, StepView::Finish(Ok(OutcomeView::MaybeKey(None)))),
                ReplyView::Value(Some(raw)) => (
                    FindWaitByScopeView {
                        raw,
                        get: GetSessionView::initial(session_entry_key(self.ns, raw)),
                        phase: FindPhase::Loading,
                        ..self
                    },
                    StepView::Issue(CommandView::Connect),
                ),
                _ => (done, fail_on(r)),
            },
            FindPhase::Loading => {
                let (g, s) = self.get.next(r);
                let done_g = FindWaitByScopeView { get: g, phase: FindPhase::Finished, ..self };
                match s {
                    StepView::Issue(c) => (FindWaitByScopeView { get: g, ..self }, StepView::Issue(c)),
                    StepView::Finish(Ok(OutcomeView::Session(Some(stored)))) => if wait_belongs_to(
                        stored.tenant_ctx,
                        self.ctx,
                        self.user,
                    ) {
                        (done_g, StepView::Finish(Ok(OutcomeView::MaybeKey(Some(self.raw)))))
                    } else {
                        self.drop_scope(g)
                    },
                    StepView::Finish(Ok(OutcomeView::Session(None))) => self.drop_scope(g),
                    StepView::Finish(Ok(_)) => (done_g, fail_unexpected()),
                    StepView::Finish(Err(e)) => (done_g, StepView::Finish(Err(e))),
                }
            },
            FindPhase::DeletingScope => match r {
                ReplyView::Done => (
                    FindWaitByScopeView { phase: FindPhase::Untracking, ..self },
                    StepView::Issue(CommandView::RemoveMember { key: self.waits_key, member: self.raw }),
                ),
                _ => (done, fail_on(r)),
            },
            FindPhase::Untracking => match r {
                ReplyView::Done => (done, StepView::Finish(Ok(OutcomeView::MaybeKey(None)))),
                _ => (done, fail_on(r)),
            },
            FindPhase::Finished => (done, fail_finished()),
        }
    }
}

impl FindWaitByScope {
    /// Starts looking up the wait of `user` in `ctx` for `scope`.
    pub fn begin(store: &RedisSessionStore, ctx: &TenantCtx, user: &String, scope: &ReplyScope) -> (r: (Self, Step))
        ensures
            r.0@ == FindWaitByScopeView::initial(store.ns(), ctx@, user@, scope_hash_view(scope@)),
            r.1@ == StepView::Issue(CommandView::Connect),
    {
        let (get, _) = GetSession::for_entry(String::new());
        (
            FindWaitByScope {
                ns: store.namespace().clone(),
                ctx: ctx.duplicate(),
                user: user.clone(),
                scope_key: store.scope_wait_key(ctx, user.as_str(), scope),
                waits_key: store.user_waits_key(ctx, user.as_str()),
                raw: String::new(),
                get,
                phase: FindPhase::Connecting,
            },
            Step::Issue(Command::Connect),
        )
    }

    /// Dropping the scope key of a session that no longer answers.
    fn drop_scope(&mut self) -> (s: Step)
        ensures
            (final(self)@, s@) == old(self)@.drop_scope(old(self)@.get),
    {
        self.phase = FindPhase::DeletingScope;
        Step::Issue(Command::Delete { key: self.scope_key.clone() })
    }

    /// Takes the reply to the last command and gives the next step.
    pub fn step(&mut self, reply: Reply) -> (s: Step)
        ensures
            (final(self)@, s@) == old(self)@.next(reply@),
    {
        match self.phase {
            FindPhase::Connecting => match reply {
                Reply::Connected => {
                    self.phase = FindPhase::ReadingScope;
                    Step::Issue(Command::Get { key: self.scope_key.clone() })
                },
                other => {
                    self.phase = FindPhase::Finished;
                    failure_step(other)
                },
            },
            FindPhase::ReadingScope => match reply {
                Reply::Value(None) => {
                    self.phase = FindPhase::Finished;
                    Step::Finish(Ok(Outcome::MaybeKey(None)))
                },
                Reply::Value(Some(raw)) => {
                    let (get, first) = GetSession::for_entry(make_session_entry_key(self.ns.as_str(), raw.as_str()));
                    self.raw = raw;
                    self.get = get;
                    self.phase = FindPhase::Loading;
                    first
                },
                other => {
                    self.phase = FindPhase::Finished;
                    failure_step(other)
                },
            },
            FindPhase::Loading => {
                let s = self.get.step(reply);
                match s {
                    Step::Issue(c) => Step::Issue(c),
                    Step::Finish(Ok(Outcome::Session(Some(stored)))) => {
                        if wait_matches(&stored.tenant_ctx, &self.ctx, &self.user) {
                            self.phase = FindPhase::Finished;
                            Step::Finish(Ok(Outcome::MaybeKey(Some(self.raw.clone()))))
                        } else {
                            self.drop_scope()
                        }
                    },
                    Step::Finish(Ok(Outcome::Session(None))) => self.drop_scope(),
                    Step::Finish(Ok(_)) => {
                        self.phase = FindPhase::Finished;
                        unexpected_step()
                    },
                    Step::Finish(Err(e)) => {
                        self.phase = FindPhase::Finished;
                        Step::Finish(Err(e))
                    },
                }
            },
            FindPhase::DeletingScope => match reply {
                Reply::Done => {
                    self.phase = FindPhase::Untracking;
                    Step::Issue(Command::RemoveMember { key: self.waits_key.clone(), member: self.raw.clone() })
                },
                other => {
                    self.phase = FindPhase::Finished;
                    failure_step(other)
                },
            },
            FindPhase::Untracking => match reply {
                Reply::Done => {
                    self.phase = FindPhase::Finished;
                    Step::Finish(Ok(Outcome::MaybeKey(None)))
                },
                other => {
                    self.phase = FindPhase::Finished;
                    failure_step(other)
                },
            },
            FindPhase::Finished => finished_step(),
        }
    }
}

// ---------------------------------------------------------------------------
// Clearing the wait of a scope
// ---------------------------------------------------------------------------

/// Where clearing a scope's wait stands.
#[derive(Clone, Copy, Debug, PartialEq, Eq, Structural)]
pub enum ClearPhase {
    Connecting,
    ReadingScope,
    DeletingEntry,
    DeletingScope,
    Untracking,
    Finished,
}

/// Clears the wait of a scope: delete the session it names, the scope key,
/// and the session's place in the user's wait set.
pub struct ClearWait {
    ns: String,
    scope_key: String,
    waits_key: String,
    raw: String,
    phase: ClearPhase,
}

/// Clearing a scope's wait as mathematical values.
pub struct ClearWaitView {
    pub ns: Seq<char>,
    pub scope_key: Seq<char>,
    pub waits_key: Seq<char>,
    pub raw: Seq<char>,
    pub phase: ClearPhase,
}

impl View for ClearWait {
    type V = ClearWaitView;

    closed spec fn view(&self) -> ClearWaitView {
        ClearWaitView {
            ns: self.ns@,
            scope_key: self.scope_key@,
            waits_key: self.waits_key@,
            raw: self.raw@,
            phase: self.phase,
        }
    }
}

impl ClearWaitView {
    /// Clearing the wait of `user` in `ctx` for the scope with hash `hash`.
    pub open spec fn initial(ns: Seq<char>, ctx: TenantView, user: Seq<char>, hash: Seq<char>) -> ClearWaitView {
        ClearWaitView {
            ns,
            scope_key: scope_wait_key(ns, ctx, user, hash),
            waits_key: user_waits_key(ns, ctx, user),
            raw: Seq::empty(),
            phase: ClearPhase::Connecting,
        }
    }

    /// The state and step that follow `r`.
    pub open spec fn next(self, r: ReplyView) -> (ClearWaitView, StepView) {
        let done = ClearWaitView { phase: ClearPhase::Finished, ..self };
        match self.phase {
            ClearPhase::Connecting => match r {
                ReplyView::Connected => (
                    ClearWaitView { phase: ClearPhase::ReadingScope, ..self },
                    StepView::Issue(CommandView::Get { key: self.scope_key }),
                ),
                _ => (done, fail_on(r)),
            },
            ClearPhase::ReadingScope => match r {
                ReplyView::Value(None) => (done, StepView::Finish(Ok(OutcomeView::Unit))),
                ReplyView::Value(Some(raw)) => (
                    ClearWaitView { raw, phase: ClearPhase::DeletingEntry, ..self },
                    StepView::Issue(CommandView::Delete { key: session_entry_key(self.ns, raw) }),
                ),
                _ => (done, fail_on(r)),
            },
            ClearPhase::DeletingEntry => match r {
                ReplyView::Done => (
                    ClearWaitView { phase: ClearPhase::DeletingScope, ..self },
                    StepView::Issue(CommandView::Delete { key: self.scope_key }),
                ),
                _ => (done, fail_on(r)),
            },
            ClearPhase::DeletingScope => match r {
                ReplyView::Done => (
                    ClearWaitView { phase: ClearPhase::Untracking, ..self },
                    StepView::Issue(CommandView::RemoveMember { key: self.waits_key, member: self.raw }),
                ),
                _ => (done, fail_on(r)),
            },
            ClearPhase::Untracking => match r {
                ReplyView::Done => (done, StepView::Finish(Ok(OutcomeView::Unit))),
                _ => (done, fail_on(r)),
            },
            ClearPhase::Finished => (done, fail_finished()),
        }
    }
}

impl ClearWait {
    /// Starts clearing the wait of `user` in `ctx` for `scope`.
    pub fn begin(store: &RedisSessionStore, ctx: &TenantCtx, user: &String, scope: &ReplyScope) -> (r: (Self, Step))
        ensures
            r.0@ == ClearWaitView::initial(store.ns(), ctx@, user@, scope_hash_view(scope@)),
            r.1@ == StepView::Issue(CommandView::Connect),
    {
        (
            ClearWait {
                ns: store.namespace().clone(),
                scope_key: store.scope_wait_key(ctx, user.as_str(), scope),
                waits_key: store.user_waits_key(ctx, user.as_str()),
                raw: String::new(),
                phase: ClearPhase::Connecting,
            },
            Step::Issue(Command::Connect),
        )
    }

    /// Takes the reply to the last command and gives the next step.
    pub fn step(&mut self, reply: Reply) -> (s: Step)
        ensures
            (final(self)@, s@) == old(self)@.next(reply@),
    {
        match self.phase {
            ClearPhase::Connecting => match reply {
                Reply::Connected => {
                    self.phase = ClearPhase::ReadingScope;
                    Step::Issue(Command::Get { key: self.scope_key.clone() })
                },
                other => {
                    self.phase = ClearPhase::Finished;
                    failure_step(other)
                },
            },
            ClearPhase::ReadingScope => match reply {
                Reply::Value(None) => {
                    self.phase = ClearPhase::Finished;
                    Step::Finish(Ok(Outcome::Unit))
                },
                Reply::Value(Some(raw)) => {
                    let key = make_session_entry_key(self.ns.as_str(), raw.as_str());
                    self.raw = raw;
                    self.phase = ClearPhase::DeletingEntry;
                    Step::Issue(Command::Delete { key })
                },
                other => {
                    self.phase = ClearPhase::Finished;
                    failure_step(other)
                },
            },
            ClearPhase::DeletingEntry => match reply {
                Reply::Done => {
                    self.phase = ClearPhase::DeletingScope;
                    Step::Issue(Command::Delete { key: self.scope_key.clone() })
                },
                other => {
                    self.phase = ClearPhase::Finished;
                    failure_step(other)
                },
            },
            ClearPhase::DeletingScope => match reply {
                Reply::Done => {
                    self.phase = ClearPhase::Untracking;
                    Step::Issue(Command::RemoveMember { key: self.waits_key.clone(), member: self.raw.clone() })
                },
                other => {
                    self.phase = ClearPhase::Finished;
                    failure_step(other)
                },
            },
            ClearPhase::Untracking => match reply {
                Reply::Done => {
                    self.phase = ClearPhase::Finished;
                    Step::Finish(Ok(Outcome::Unit))
                },
                other => {
                    self.phase = ClearPhase::Finished;
                    failure_step(other)
                },
            },
            ClearPhase::Finished => finished_step(),
        }
    }
}


// ---------------------------------------------------------------------------
// Listing a user's waits
// ---------------------------------------------------------------------------

/// Where listing a user's waits stands.
#[derive(Clone, Copy, Debug, PartialEq, Eq, Structural)]
pub enum ListPhase {
    Connecting,
    Listing,
    Loading,
    Untracking,
    Finished,
}

/// Lists the sessions a user waits on: read the user's wait set, load each
/// member in turn, keep those that still belong to the caller's tenant,
/// team and user, and drop the others from the set.
pub struct ListWaitsForUser {
    ns: String,
    ctx: TenantCtx,
    user: String,
    waits_key: String,
    members: Vec<String>,
    index: usize,
    current: String,
    results: Vec<String>,
    get: GetSession,
    phase: ListPhase,
}

/// Listing a user's waits as mathematical values.
pub struct ListWaitsForUserView {
    pub ns: Seq<char>,
    pub ctx: TenantView,
    pub user: Seq<char>,
    pub waits_key: Seq<char>,
    pub members: Seq<Seq<char>>,
    pub index: int,
    pub current: Seq<char>,
    pub results: Seq<Seq<char>>,
    pub get: GetSessionView,
    pub phase: ListPhase,
}

impl View for ListWaitsForUser {
    type V = ListWaitsForUserView;

    closed spec fn view(&self) -> ListWaitsForUserView {
        ListWaitsForUserView {
            ns: self.ns@,
            ctx: self.ctx@,
            user: self.user@,
            waits_key: self.waits_key@,
            members: strs_view(self.members@),
            index: self.index as int,
            current: self.current@,
            results: strs_view(self.results@),
            get: self.get@,
            phase: self.phase,
        }
    }
}

impl ListWaitsForUserView {
    /// Listing the waits of `user` in `ctx`.
    pub open spec fn initial(ns: Seq<char>, ctx: TenantView, user: Seq<char>) -> ListWaitsForUserView {
        ListWaitsForUserView {
            ns,
            ctx,
            user,
            waits_key: user_waits_key(ns, ctx, user),
            members: Seq::empty(),
            index: 0,
            current: Seq::empty(),
            results: Seq::empty(),
            get: GetSessionView::initial(Seq::empty()),
            phase: ListPhase::Connecting,
        }
    }

    /// Loading the member at `index`, or finishing with the kept members
    /// once none is left.
    pub open spec fn next_member(self) -> (ListWaitsForUserView, StepView) {
        if 0 <= self.index < self.members.len() {
            let m = self.members[self.index];
            (
                ListWaitsForUserView {
                    current: m,
                    get: GetSessionView::initial(session_entry_key(self.ns, m)),
                    phase: ListPhase::Loading,
                    ..self
                },
                StepView::Issue(CommandView::Connect),
            )
        } else {
            (
                ListWaitsForUserView { phase: ListPhase::Finished, ..self },
                StepView::Finish(Ok(OutcomeView::Keys(self.results))),
            )
        }
    }

    /// Moving past the member at `index`.
    pub open spec fn advance(self) -> (ListWaitsForUserView, StepView) {
        if self.index < self.members.len() {
            ListWaitsForUserView { index: self.index + 1, ..self }.next_member()
        } else {
            self.next_member()
        }
    }

    /// The state and step that follow `r`.
    pub open spec fn next(self, r: ReplyView) -> (ListWaitsForUserView, StepView) {
        let done = ListWaitsForUserView { phase: ListPhase::Finished, ..self };
        match self.phase {
            ListPhase::Connecting => match r {
                ReplyView::Connected => (
                    ListWaitsForUserView { phase: ListPhase::Listing, ..self },
                    StepView::Issue(CommandView::ListMembers { key: self.waits_key }),
                ),
                _ => (done, fail_on(r)),
            },
            ListPhase::Listing => match r {
                ReplyView::Members(ms) => ListWaitsForUserView {
                    members: ms,
                    index: 0,
                    results: Seq::empty(),
                    ..self
                }.next_member(),
                _ => (done, fail_on(r)),
            },
            ListPhase::Loading => {
                let (g, s) = self.get.next(r);
                let drop = (
                    ListWaitsForUserView { get: g, phase: ListPhase::Untracking, ..self },
                    StepView::Issue(CommandView::RemoveMember { key: self.waits_key, member: self.current }),
                );
                match s {
                    StepView::Issue(c) => (ListWaitsForUserView { get: g, ..self }, StepView::Issue(c)),
                    StepView::Finish(Ok(OutcomeView::Session(Some(stored)))) => if wait_belongs_to(
                        stored.tenant_ctx,
                        self.ctx,
                        self.user,
                    ) {
                        ListWaitsForUserView {
                            get: g,
                            results: self.results.push(self.current),
                            ..self
                        }.advance()
                    } else {
                        drop
                    },
                    StepView::Finish(Ok(OutcomeView::Session(None))) => drop,
                    StepView::Finish(Ok(_)) => (
                        ListWaitsForUserView { get: g, phase: ListPhase::Finished, ..self },
                        fail_unexpected(),
                    ),
                    StepView::Finish(Err(e)) => (
                        ListWaitsForUserView { get: g, phase: ListPhase::Finished, ..self },
                        StepView::Finish(Err(e)),
                    ),
                }
            },
            ListPhase::Untracking => match r {
                ReplyView::Done => self.advance(),
                _ => (done, fail_on(r)),
            },
            ListPhase::Finished => (done, fail_finished()),
        }
    }
}

impl ListWaitsForUser {
    /// Starts listing the waits of `user` in `ctx`.
    pub fn begin(store: &RedisSessionStore, ctx: &TenantCtx, user: &String) -> (r: (Self, Step))
        ensures
            r.0@ == ListWaitsForUserView::initial(store.ns(), ctx@, user@),
            r.1@ == StepView::Issue(CommandView::Connect),
    {
        let (get, _) = GetSession::for_entry(String::new());
        let ghost empty = strs_view(Seq::<String>::empty());
        assert(empty =~= Seq::<Seq<char>>::empty());
        (
            ListWaitsForUser {
                ns: store.namespace().clone(),
                ctx: ctx.duplicate(),
                user: user.clone(),
                waits_key: store.user_waits_key(ctx, user.as_str()),
                members: Vec::new(),
                index: 0,
                current: String::new(),
                results: Vec::new(),
                get,
                phase: ListPhase::Connecting,
            },
            Step::Issue(Command::Connect),
        )
    }

    /// Loading the member at `index`, or finishing with the kept members.
    fn next_member(&mut self) -> (s: Step)
        ensures
            (final(self)@, s@) == old(self)@.next_member(),
    {
        if self.index < self.members.len() {
            let m = self.members[self.index].clone();
            let (get, first) = GetSession::for_entry(make_session_entry_key(self.ns.as_str(), m.as_str()));
            self.current = m;
            self.get = get;
            self.phase = ListPhase::Loading;
            first
        } else {
            let mut kept: Vec<String> = Vec::new();
            core::mem::swap(&mut kept, &mut self.results);
            self.results = kept.clone();
            self.phase = ListPhase::Finished;
            Step::Finish(Ok(Outcome::Keys(kept)))
        }
    }

    /// Moving past the member at `index`.
    fn advance(&mut self) -> (s: Step)
        ensures
            (final(self)@, s@) == old(self)@.advance(),
    {
        if self.index < self.members.len() {
            self.index = self.index + 1;
        }
        self.next_member()
    }

    /// Takes the reply to the last command and gives the next step.
    pub fn step(&mut self, reply: Reply) -> (s: Step)
        ensures
            (final(self)@, s@) == old(self)@.next(reply@),
    {
        match self.phase {
            ListPhase::Connecting => match reply {
                Reply::Connected => {
                    self.phase = ListPhase::Listing;
                    Step::Issue(Command::ListMembers { key: self.waits_key.clone() })
                },
                other => {
                    self.phase = ListPhase::Finished;
                    failure_step(other)
                },
            },
            ListPhase::Listing => match reply {
                Reply::Members(ms) => {
                    self.members = ms;
                    self.index = 0;
                    self.results = Vec::new();
                    proof {
                        assert(strs_view(self.results@) =~= Seq::<Seq<char>>::empty());
                    }
                    self.next_member()
                },
                other => {
                    self.phase = ListPhase::Finished;
                    failure_step(other)
                },
            },
            ListPhase::Loading => {
                let s = self.get.step(reply);
                match s {
                    Step::Issue(c) => Step::Issue(c),
                    Step::Finish(Ok(Outcome::Session(Some(stored)))) => {
                        if wait_matches(&stored.tenant_ctx, &self.ctx, &self.user) {
                            let ghost before = self.results@;
                            self.results.push(self.current.clone());
                            proof {
                                assert(strs_view(self.results@) =~= strs_view(before).push(self.current@));
                            }
                            self.advance()
                        } else {
                            self.phase = ListPhase::Untracking;
                            Step::Issue(Command::RemoveMember { key: self.waits_key.clone(), member: self.current.clone() })
                        }
                    },
                    Step::Finish(Ok(Outcome::Session(None))) => {
                        self.phase = ListPhase::Untracking;
                        Step::Issue(Command::RemoveMember { key: self.waits_key.clone(), member: self.current.clone() })
                    },
                    Step::Finish(Ok(_)) => {
                        self.phase = ListPhase::Finished;
                        unexpected_step()
                    },
                    Step::Finish(Err(e)) => {
                        self.phase = ListPhase::Finished;
                        Step::Finish(Err(e))
                    },
                }
            },
            ListPhase::Untracking => match reply {
                Reply::Done => self.advance(),
                other => {
                    self.phase = ListPhase::Finished;
                    failure_step(other)
                },
            },
            ListPhase::Finished => finished_step(),
        }
    }
}


// ---------------------------------------------------------------------------
// Finding the single wait of a user
// ---------------------------------------------------------------------------

/// The message when a user waits on more than one session.
pub open spec fn multiple_waits_message() -> Seq<char> {
    "multiple waits exist for user; use scope-based routing instead"@
}

/// Where finding a user's single wait stands.
#[derive(Clone, Copy, Debug, PartialEq, Eq, Structural)]
pub enum FindByUserPhase {
    Listing,
    Loading,
    Finished,
}

/// Finds the one session a user waits on: list the user's waits; none
/// gives nothing, one is loaded and returned, more than one is refused.
pub struct FindByUser {
    ns: String,
    list: ListWaitsForUser,
    key: String,
    get: GetSession,
    phase: FindByUserPhase,
}

/// Finding a user's single wait as mathematical values.
pub struct FindByUserView {
    pub ns: Seq<char>,
    pub list: ListWaitsForUserView,
    pub key: Seq<char>,
    pub get: GetSessionView,
    pub phase: FindByUserPhase,
}

impl View for FindByUser {
    type V = FindByUserView;

    closed spec fn view(&self) -> FindByUserView {
        FindByUserView {
            ns: self.ns@,
            list: self.list@,
            key: self.key@,
            get: self.get@,
            phase: self.phase,
        }
    }
}

impl FindByUserView {
    /// Finding the single wait of `user` in `ctx`.
    pub open spec fn initial(ns: Seq<char>, ctx: TenantView, user: Seq<char>) -> FindByUserView {
        FindByUserView {
            ns,
            list: ListWaitsForUserView::initial(ns, ctx, user),
            key: Seq::empty(),
            get: GetSessionView::initial(Seq::empty()),
            phase: FindByUserPhase::Listing,
        }
    }

    /// The state and step that follow `r`.
    pub open spec fn next(self, r: ReplyView) -> (FindByUserView, StepView) {
        let done = FindByUserView { phase: FindByUserPhase::Finished, ..self };
        match self.phase {
            FindByUserPhase::Listing => {
                let (l, s) = self.list.next(r);
                let done_l = FindByUserView { list: l, phase: FindByUserPhase::Finished, ..self };
                match s {
                    StepView::Issue(c) => (FindByUserView { list: l, ..self }, StepView::Issue(c)),
                    StepView::Finish(Ok(OutcomeView::Keys(ks))) => if ks.len() == 0 {
                        (done_l, StepView::Finish(Ok(OutcomeView::MaybeSession(None))))
                    } else if ks.len() == 1 {
                        (
                            FindByUserView {
                                list: l,
                                key: ks[0],
                                get: GetSessionView::initial(session_entry_key(self.ns, ks[0])),
                                phase: FindByUserPhase::Loading,
                                ..self
                            },
                            StepView::Issue(CommandView::Connect),
                        )
                    } else {
                        (
                            done_l,
                            StepView::Finish(Err(SessionErrorView {
                                code: ErrorCode::InvalidInput,
                                message: multiple_waits_message(),
                            })),
                        )
                    },
                    StepView::Finish(Ok(_)) => (done_l, fail_unexpected()),
                    StepView::Finish(Err(e)) => (done_l, StepView::Finish(Err(e))),
                }
            },
            FindByUserPhase::Loading => {
                let (g, s) = self.get.next(r);
                let done_g = FindByUserView { get: g, phase: FindByUserPhase::Finished, ..self };
                match s {
                    StepView::Issue(c) => (FindByUserView { get: g, ..self }, StepView::Issue(c)),
                    StepView::Finish(Ok(OutcomeView::Session(None))) => (
                        done_g,
                        StepView::Finish(Err(not_found_error(self.key))),
                    ),
                    StepView::Finish(Ok(OutcomeView::Session(Some(stored)))) => (
                        done_g,
                        StepView::Finish(Ok(OutcomeView::MaybeSession(Some((self.key, stored))))),
                    ),
                    StepView::Finish(Ok(_)) => (done_g, fail_unexpected()),
                    StepView::Finish(Err(e)) => (done_g, StepView::Finish(Err(e))),
                }
            },
            FindByUserPhase::Finished => (done, fail_finished()),
        }
    }
}

impl FindByUser {
    /// Starts finding the single wait of `user` in `ctx`.
    pub fn begin(store: &RedisSessionStore, ctx: &TenantCtx, user: &String) -> (r: (Self, Step))
        ensures
            r.0@ == FindByUserView::initial(store.ns(), ctx@, user@),
            r.1@ == StepView::Issue(CommandView::Connect),
    {
        let (list, first) = ListWaitsForUser::begin(store, ctx, user);
        let (get, _) = GetSession::for_entry(String::new());
        (
            FindByUser {
                ns: store.namespace().clone(),
                list,
                key: String::new(),
                get,
                phase: FindByUserPhase::Listing,
            },
            first,
        )
    }

    /// Takes the reply to the last command and gives the next step.
    pub fn step(&mut self, reply: Reply) -> (s: Step)
        ensures
            (final(self)@, s@) == old(self)@.next(reply@),
    {
        match self.phase {
            FindByUserPhase::Listing => {
                let s = self.list.step(reply);
                match s {
                    Step::Issue(c) => Step::Issue(c),
                    Step::Finish(Ok(Outcome::Keys(ks))) => {
                        proof {
                            assert(strs_view(ks@).len() == ks@.len());
                        }
                        if ks.len() == 0 {
                            self.phase = FindByUserPhase::Finished;
                            Step::Finish(Ok(Outcome::MaybeSession(None)))
                        } else if ks.len() == 1 {
                            let key = ks[0].clone();
                            let (get, first) = GetSession::for_entry(
                                make_session_entry_key(self.ns.as_str(), key.as_str()),
                            );
                            self.key = key;
                            self.get = get;
                            self.phase = FindByUserPhase::Loading;
                            first
                        } else {
                            self.phase = FindByUserPhase::Finished;
                            Step::Finish(Err(invalid_argument(
                                String::from_str("multiple waits exist for user; use scope-based routing instead"),
                            )))
                        }
                    },
                    Step::Finish(Ok(_)) => {
                        self.phase = FindByUserPhase::Finished;
                        unexpected_step()
                    },
                    Step::Finish(Err(e)) => {
                        self.phase = FindByUserPhase::Finished;
                        Step::Finish(Err(e))
                    },
                }
            },
            FindByUserPhase::Loading => {
                let s = self.get.step(reply);
                match s {
                    Step::Issue(c) => Step::Issue(c),
                    Step::Finish(Ok(Outcome::Session(None))) => {
                        self.phase = FindByUserPhase::Finished;
                        Step::Finish(Err(not_found(self.key.as_str())))
                    },
                    Step::Finish(Ok(Outcome::Session(Some(stored)))) => {
                        self.phase = FindByUserPhase::Finished;
                        Step::Finish(Ok(Outcome::MaybeSession(Some((self.key.clone(), stored)))))
                    },
                    Step::Finish(Ok(_)) => {
                        self.phase = FindByUserPhase::Finished;
                        unexpected_step()
                    },
                    Step::Finish(Err(e)) => {
                        self.phase = FindByUserPhase::Finished;
                        Step::Finish(Err(e))
                    },
                }
            },
            FindByUserPhase::Finished => finished_step(),
        }
    }
}

} // verus!
