//! A model of the backend that session operations talk to, and what the
//! operations achieve when the backend behaves as the model says.
//!
//! The model keeps, for each key, either a text value or a set of members.
//! Reads and writes act as Redis documents `GET`, `SET`, `DEL`, `SADD`,
//! `SREM` and `SMEMBERS`; expiry is not modelled (the laws hold until a key
//! expires). Payloads are encoded and decoded by the named codec of
//! `crate::data`; where a law reads back what was written, it asks that the
//! data survive that codec, which `RedisSessionStore::serialize` promises
//! of every valid record.

use vstd::prelude::*;
use crate::data::{SessionRecordView, decoded_session, encoded_session, round_trips};
use crate::error::SessionErrorView;
use crate::keys::{
    lemma_key_kinds_disjoint, lemma_namespaces_separate, lemma_session_entry_key_injective, no_colon, scope_wait_key, session_entry_key,
    user_waits_key,
};
use crate::protocol::{CommandView, OutcomeView, ReplyView, StepView};
use crate::session_ops::{
    CreateSessionView, GetPhase, GetSessionView, RemoveSessionView, UpdateSessionView, tracked_in,
};
use crate::tenant::{TenantView, alignment_failure, preservation_failure, wait_belongs_to, wait_user_failure};
use crate::wait_ops::{
    multiple_waits_message, ClearWaitView, FindByUserPhase, FindByUserView, FindWaitByScopeView, ListPhase, ListWaitsForUserView,
    RegisterWaitView,
};

verus! {

/// What a key holds.
pub enum Stored {
    Text(Seq<char>),
    Members(Set<Seq<char>>),
}

/// The keys of a backend and what each holds.
pub type Keyspace = Map<Seq<char>, Stored>;

/// The reply to a command on a key that holds the other kind of value.
pub open spec fn wrong_type() -> ReplyView {
    ReplyView::StoreFailed("WRONGTYPE Operation against a key holding the wrong kind of value"@)
}

/// The reply to `cmd` and the keyspace after it.
pub open spec fn perform(keys: Keyspace, cmd: CommandView) -> (ReplyView, Keyspace) {
    match cmd {
        CommandView::Connect => (ReplyView::Connected, keys),
        CommandView::Get { key } => if keys.contains_key(key) {
            match keys[key] {
                Stored::Text(v) => (ReplyView::Value(Some(v)), keys),
                Stored::Members(_) => (wrong_type(), keys),
            }
        } else {
            (ReplyView::Value(None), keys)
        },
        CommandView::Put { key, value } => (ReplyView::Done, keys.insert(key, Stored::Text(value))),
        CommandView::Delete { key } => (ReplyView::Done, keys.remove(key)),
        CommandView::AddMember { key, member } => if keys.contains_key(key) {
            match keys[key] {
                Stored::Members(s) => (ReplyView::Done, keys.insert(key, Stored::Members(s.insert(member)))),
                Stored::Text(_) => (wrong_type(), keys),
            }
        } else {
            (ReplyView::Done, keys.insert(key, Stored::Members(Set::empty().insert(member))))
        },
        CommandView::RemoveMember { key, member } => if keys.contains_key(key) {
            match keys[key] {
                Stored::Members(s) => if s.remove(member) == Set::<Seq<char>>::empty() {
                    (ReplyView::Done, keys.remove(key))
                } else {
                    (ReplyView::Done, keys.insert(key, Stored::Members(s.remove(member))))
                },
                Stored::Text(_) => (wrong_type(), keys),
            }
        } else {
            (ReplyView::Done, keys)
        },
        CommandView::ListMembers { key } => if keys.contains_key(key) {
            match keys[key] {
                Stored::Members(s) => (ReplyView::Members(s.to_seq()), keys),
                Stored::Text(_) => (wrong_type(), keys),
            }
        } else {
            (ReplyView::Members(Seq::empty()), keys)
        },
        CommandView::ExpireAfter { .. } => (ReplyView::Done, keys),
    }
}

/// An operation machine, as mathematical values.
pub trait Machine: Sized {
    /// The state and step that follow a reply.
    spec fn advance_on(self, r: ReplyView) -> (Self, StepView);
}

impl Machine for GetSessionView {
    open spec fn advance_on(self, r: ReplyView) -> (Self, StepView) {
        self.next(r)
    }
}

impl Machine for CreateSessionView {
    open spec fn advance_on(self, r: ReplyView) -> (Self, StepView) {
        self.next(r)
    }
}

impl Machine for UpdateSessionView {
    open spec fn advance_on(self, r: ReplyView) -> (Self, StepView) {
        self.next(r)
    }
}

impl Machine for RemoveSessionView {
    open spec fn advance_on(self, r: ReplyView) -> (Self, StepView) {
        self.next(r)
    }
}

impl Machine for RegisterWaitView {
    open spec fn advance_on(self, r: ReplyView) -> (Self, StepView) {
        self.next(r)
    }
}

impl Machine for FindWaitByScopeView {
    open spec fn advance_on(self, r: ReplyView) -> (Self, StepView) {
        self.next(r)
    }
}

impl Machine for ClearWaitView {
    open spec fn advance_on(self, r: ReplyView) -> (Self, StepView) {
        self.next(r)
    }
}

impl Machine for ListWaitsForUserView {
    open spec fn advance_on(self, r: ReplyView) -> (Self, StepView) {
        self.next(r)
    }
}

impl Machine for FindByUserView {
    open spec fn advance_on(self, r: ReplyView) -> (Self, StepView) {
        self.next(r)
    }
}

/// Runs machine `m`, whose pending step is `step`, against the model for at
/// most `fuel` commands: its result, if it finished, and the keyspace after.
pub open spec fn run<M: Machine>(m: M, step: StepView, keys: Keyspace, fuel: nat) -> (
    Option<Result<OutcomeView, SessionErrorView>>,
    Keyspace,
)
    decreases fuel,
{
    match step {
        StepView::Finish(res) => (Some(res), keys),
        StepView::Issue(cmd) => if fuel == 0 {
            (None, keys)
        } else {
            let (reply, keys2) = perform(keys, cmd);
            let (m2, step2) = m.advance_on(reply);
            run(m2, step2, keys2, (fuel - 1) as nat)
        },
    }
}

/// Running a machine one command further.
pub proof fn lemma_run_step<M: Machine>(m: M, cmd: CommandView, keys: Keyspace, fuel: nat)
    ensures
        ({
            let (reply, keys2) = perform(keys, cmd);
            let (m2, step2) = m.advance_on(reply);
            run(m, StepView::Issue(cmd), keys, fuel + 1) == run(m2, step2, keys2, fuel)
        }),
{
}

/// The key holds no set (it is absent or holds text).
pub open spec fn holds_no_set(keys: Keyspace, key: Seq<char>) -> bool {
    keys.contains_key(key) ==> keys[key] is Text
}

/// The key holds no text (it is absent or holds a set).
pub open spec fn holds_no_text(keys: Keyspace, key: Seq<char>) -> bool {
    keys.contains_key(key) ==> keys[key] is Members
}

/// The session stored at key `k` decodes to data whose context belongs to
/// `user` in `ctx`.
pub open spec fn answers(keys: Keyspace, ns: Seq<char>, k: Seq<char>, ctx: TenantView, user: Seq<char>) -> bool {
    &&& keys.contains_key(session_entry_key(ns, k))
    &&& keys[session_entry_key(ns, k)] is Text
    &&& decoded_session(keys[session_entry_key(ns, k)]->Text_0) matches Some(stored)
    &&& wait_belongs_to(stored.tenant_ctx, ctx, user)
}

/// Reading session `key` of namespace `ns`.
pub open spec fn read(ns: Seq<char>, key: Seq<char>, keys: Keyspace) -> Option<Result<OutcomeView, SessionErrorView>> {
    run(GetSessionView::initial(session_entry_key(ns, key)), StepView::Issue(CommandView::Connect), keys, 2).0
}

/// A session that was created reads back with the data it was created
/// with.
pub proof fn law_created_session_reads_back(
    ns: Seq<char>,
    key: Seq<char>,
    data: SessionRecordView,
    payload: Seq<char>,
    keys: Keyspace,
)
    requires
        round_trips(data, payload),
    ensures
        ({
            let (m, s) = CreateSessionView::start(ns, key, data);
            let (created, after) = run(m, s, keys, 2);
            &&& created == Some(Ok::<OutcomeView, SessionErrorView>(OutcomeView::Key(key)))
            &&& read(ns, key, after) == Some(Ok::<OutcomeView, SessionErrorView>(OutcomeView::Session(Some(data))))
        }),
{
    reveal_with_fuel(run, 3);
}

/// A session created under one colon-free namespace is not seen by a store
/// with another colon-free namespace on the same server.
pub proof fn law_namespaces_are_separate(
    ns: Seq<char>,
    other: Seq<char>,
    key: Seq<char>,
    data: SessionRecordView,
    keys: Keyspace,
)
    requires
        no_colon(ns),
        no_colon(other),
        ns != other,
        !keys.contains_key(session_entry_key(other, key)),
    ensures
        ({
            let (m, s) = CreateSessionView::start(ns, key, data);
            let (_, after) = run(m, s, keys, 2);
            read(other, key, after) == Some(Ok::<OutcomeView, SessionErrorView>(OutcomeView::Session(None)))
        }),
{
    lemma_namespaces_separate(ns, other, key, key);
    reveal_with_fuel(run, 3);
}

/// Registering `session_key` as the wait of `user` in `ctx` for the scope
/// with hash `hash`.
pub open spec fn register_run(
    ns: Seq<char>,
    ctx: TenantView,
    user: Seq<char>,
    hash: Seq<char>,
    session_key: Seq<char>,
    ttl_ms: Option<u128>,
    data: SessionRecordView,
    keys: Keyspace,
) -> (Option<Result<OutcomeView, SessionErrorView>>, Keyspace) {
    run(
        RegisterWaitView::initial(ns, ctx, user, hash, session_key, ttl_ms, data),
        StepView::Issue(CommandView::Connect),
        keys,
        8,
    )
}

/// The text a key holds, if it holds text.
pub open spec fn text_at(keys: Keyspace, key: Seq<char>) -> Option<Seq<char>> {
    if keys.contains_key(key) && keys[key] is Text {
        Some(keys[key]->Text_0)
    } else {
        None
    }
}

/// The members a key holds: none when it is absent or holds text.
pub open spec fn members_at(keys: Keyspace, key: Seq<char>) -> Set<Seq<char>> {
    if keys.contains_key(key) && keys[key] is Members {
        keys[key]->Members_0
    } else {
        Set::empty()
    }
}

/// The user's wait set after registering `session_key` for a scope: the
/// set before with the session added, and, where the scope named another
/// session, that one taken out; no other member changes.
pub open spec fn registered_waits(keys: Keyspace, waits: Seq<char>, scope: Seq<char>, session_key: Seq<char>) -> Set<
    Seq<char>,
> {
    let grown = members_at(keys, waits).insert(session_key);
    match text_at(keys, scope) {
        Some(p) => if p != session_key {
            grown.remove(p)
        } else {
            grown
        },
        None => grown,
    }
}

/// What registering a wait leaves in the keyspace: the payload at the
/// session's entry key, the session's key at the scope key, and the user's
/// wait set as `registered_waits` gives it (the session added, a different
/// session the scope named before taken out, every other member kept);
/// every other key as it was.
pub proof fn lemma_register_effect(
    ns: Seq<char>,
    ctx: TenantView,
    user: Seq<char>,
    hash: Seq<char>,
    session_key: Seq<char>,
    ttl_ms: Option<u128>,
    data: SessionRecordView,
    payload: Seq<char>,
    keys: Keyspace,
)
    requires
        encoded_session(data) == payload,
        holds_no_set(keys, scope_wait_key(ns, ctx, user, hash)),
        holds_no_text(keys, user_waits_key(ns, ctx, user)),
    ensures
        ({
            let (registered, after) = register_run(ns, ctx, user, hash, session_key, ttl_ms, data, keys);
            let entry = session_entry_key(ns, session_key);
            let scope = scope_wait_key(ns, ctx, user, hash);
            let waits = user_waits_key(ns, ctx, user);
            &&& registered == Some(Ok::<OutcomeView, SessionErrorView>(OutcomeView::Unit))
            &&& after.contains_key(entry) && after[entry] == Stored::Text(payload)
            &&& after.contains_key(scope) && after[scope] == Stored::Text(session_key)
            &&& after.contains_key(waits)
            &&& after[waits] matches Stored::Members(s) && {
                &&& s.contains(session_key)
                &&& (keys.contains_key(scope) && keys[scope] is Text && keys[scope]->Text_0 != session_key)
                    ==> !s.contains(keys[scope]->Text_0)
                &&& !keys.contains_key(waits) ==> s == Set::<Seq<char>>::empty().insert(session_key)
                &&& finite_set_at(keys, waits) ==> s.finite()
                &&& s == registered_waits(keys, waits, scope, session_key)
            }
            &&& forall|k: Seq<char>|
                k != entry && k != scope && k != waits ==> (#[trigger] after.contains_key(k)
                    <==> keys.contains_key(k)) && (after.contains_key(k) ==> after[k] == keys[k])
        }),
{
    let entry = session_entry_key(ns, session_key);
    let waits = user_waits_key(ns, ctx, user);
    let scope = scope_wait_key(ns, ctx, user, hash);
    lemma_key_kinds_disjoint(ns, session_key, ctx, user, ctx, user, hash);
    let m0 = RegisterWaitView::initial(ns, ctx, user, hash, session_key, ttl_ms, data);
    lemma_run_step(m0, CommandView::Connect, keys, 7);
    let (m1, s1) = m0.next(ReplyView::Connected);
    let put_entry = CommandView::Put { key: entry, value: payload };
    assert(s1 == StepView::Issue(put_entry));
    lemma_run_step(m1, put_entry, keys, 6);
    let k2 = keys.insert(entry, Stored::Text(payload));
    let (m2, s2) = m1.next(ReplyView::Done);
    let (m3, s3, fuel3) = match ttl_ms {
        Some(t) => {
            let c = CommandView::ExpireAfter { key: entry, millis: crate::protocol::ttl_clamp(t) };
            assert(s2 == StepView::Issue(c));
            lemma_run_step(m2, c, k2, 5);
            let (a, b) = m2.next(ReplyView::Done);
            (a, b, 5nat)
        },
        None => (m2, s2, 6nat),
    };
    let add = CommandView::AddMember { key: waits, member: session_key };
    assert(s3 == StepView::Issue(add));
    assert(holds_no_text(k2, waits));
    lemma_run_step(m3, add, k2, (fuel3 - 1) as nat);
    let k4 = perform(k2, add).1;
    assert(perform(k2, add).0 == ReplyView::Done);
    assert(k4.contains_key(waits) && (k4[waits] matches Stored::Members(s) && s.contains(session_key)));
    if !keys.contains_key(waits) {
        assert(k4[waits] == Stored::Members(Set::<Seq<char>>::empty().insert(session_key)));
    }
    let (m4, s4) = m3.next(ReplyView::Done);
    let get_scope = CommandView::Get { key: scope };
    assert(s4 == StepView::Issue(get_scope));
    assert(holds_no_set(k4, scope));
    lemma_run_step(m4, get_scope, k4, (fuel3 - 2) as nat);
    let prev_reply = perform(k4, get_scope).0;
    assert(prev_reply is Value);
    let (m5, s5) = m4.next(prev_reply);
    let put_scope = CommandView::Put { key: scope, value: session_key };
    assert(s5 == StepView::Issue(put_scope));
    lemma_run_step(m5, put_scope, k4, (fuel3 - 3) as nat);
    let k6 = k4.insert(scope, Stored::Text(session_key));
    let (m6, s6) = m5.next(ReplyView::Done);
    let (m7, s7, fuel7) = match ttl_ms {
        Some(t) => {
            let c = CommandView::ExpireAfter { key: scope, millis: crate::protocol::ttl_clamp(t) };
            assert(s6 == StepView::Issue(c));
            lemma_run_step(m6, c, k6, (fuel3 - 4) as nat);
            let (a, b) = m6.next(ReplyView::Done);
            (a, b, (fuel3 - 4) as nat)
        },
        None => (m6, s6, (fuel3 - 3) as nat),
    };
    match s7 {
        StepView::Issue(c) => {
            let p = m7.previous->0;
            assert(c == CommandView::RemoveMember { key: waits, member: p });
            assert(p != session_key);
            lemma_run_step(m7, c, k6, (fuel7 - 1) as nat);
            let st = k6[waits]->Members_0;
            assert(st.remove(p).contains(session_key));
            assert(st.remove(p) != Set::<Seq<char>>::empty());
            if !keys.contains_key(waits) {
                assert(st.remove(p) =~= st);
            }
        },
        StepView::Finish(_) => {},
    }
}

/// A scope lookup of `user` in `ctx` for the scope with hash `hash`.
pub open spec fn find_run(ns: Seq<char>, ctx: TenantView, user: Seq<char>, hash: Seq<char>, keys: Keyspace) -> (
    Option<Result<OutcomeView, SessionErrorView>>,
    Keyspace,
) {
    run(FindWaitByScopeView::initial(ns, ctx, user, hash), StepView::Issue(CommandView::Connect), keys, 6)
}

/// A scope lookup finds the session the scope names when its payload
/// decodes to data that still belongs to the caller.
pub proof fn lemma_find_hit(
    ns: Seq<char>,
    ctx: TenantView,
    user: Seq<char>,
    hash: Seq<char>,
    session_key: Seq<char>,
    keys: Keyspace,
)
    requires
        keys.contains_key(scope_wait_key(ns, ctx, user, hash)),
        keys[scope_wait_key(ns, ctx, user, hash)] == Stored::Text(session_key),
        answers(keys, ns, session_key, ctx, user),
    ensures
        find_run(ns, ctx, user, hash, keys) == (
            Some(Ok::<OutcomeView, SessionErrorView>(OutcomeView::MaybeKey(Some(session_key)))),
            keys,
        ),
{
    reveal_with_fuel(run, 5);
}

/// A wait that was registered for a scope is what a lookup of that scope
/// finds, with or without a time-to-live, whatever the scope named before.
pub proof fn law_registered_wait_is_found(
    ns: Seq<char>,
    ctx: TenantView,
    user: Seq<char>,
    hash: Seq<char>,
    session_key: Seq<char>,
    data: SessionRecordView,
    ttl_ms: Option<u128>,
    payload: Seq<char>,
    keys: Keyspace,
)
    requires
        alignment_failure(ctx, data.tenant_ctx) is None,
        wait_user_failure(ctx, user, data.tenant_ctx) is None,
        round_trips(data, payload),
        holds_no_set(keys, scope_wait_key(ns, ctx, user, hash)),
        holds_no_text(keys, user_waits_key(ns, ctx, user)),
    ensures
        ({
            let (registered, after) = register_run(ns, ctx, user, hash, session_key, ttl_ms, data, keys);
            &&& registered == Some(Ok::<OutcomeView, SessionErrorView>(OutcomeView::Unit))
            &&& find_run(ns, ctx, user, hash, after) == (
                Some(Ok::<OutcomeView, SessionErrorView>(OutcomeView::MaybeKey(Some(session_key)))),
                after,
            )
        }),
{
    lemma_register_effect(ns, ctx, user, hash, session_key, ttl_ms, data, payload, keys);
    let after = register_run(ns, ctx, user, hash, session_key, ttl_ms, data, keys).1;
    lemma_find_hit(ns, ctx, user, hash, session_key, after);
}

/// Registering a session for a scope that named a different session before
/// drops the earlier one from the user's wait set and keeps the new one.
pub proof fn law_register_replaces_previous_wait(
    ns: Seq<char>,
    ctx: TenantView,
    user: Seq<char>,
    hash: Seq<char>,
    previous: Seq<char>,
    session_key: Seq<char>,
    ttl_ms: Option<u128>,
    data: SessionRecordView,
    payload: Seq<char>,
    keys: Keyspace,
)
    requires
        encoded_session(data) == payload,
        keys.contains_key(scope_wait_key(ns, ctx, user, hash)),
        keys[scope_wait_key(ns, ctx, user, hash)] == Stored::Text(previous),
        previous != session_key,
        holds_no_text(keys, user_waits_key(ns, ctx, user)),
    ensures
        ({
            let (registered, after) = register_run(ns, ctx, user, hash, session_key, ttl_ms, data, keys);
            &&& registered == Some(Ok::<OutcomeView, SessionErrorView>(OutcomeView::Unit))
            &&& after.contains_key(user_waits_key(ns, ctx, user))
            &&& after[user_waits_key(ns, ctx, user)] matches Stored::Members(s)
            &&& s.contains(session_key)
            &&& !s.contains(previous)
        }),
{
    lemma_register_effect(ns, ctx, user, hash, session_key, ttl_ms, data, payload, keys);
}

/// Clearing the wait of `user` in `ctx` for the scope with hash `hash`.
pub open spec fn clear_run(ns: Seq<char>, ctx: TenantView, user: Seq<char>, hash: Seq<char>, keys: Keyspace) -> (
    Option<Result<OutcomeView, SessionErrorView>>,
    Keyspace,
) {
    run(ClearWaitView::initial(ns, ctx, user, hash), StepView::Issue(CommandView::Connect), keys, 5)
}

/// After a scope's wait is cleared, a lookup of that scope finds nothing,
/// and clearing it again succeeds and changes nothing.
pub proof fn law_cleared_wait_is_not_found(
    ns: Seq<char>,
    ctx: TenantView,
    user: Seq<char>,
    hash: Seq<char>,
    keys: Keyspace,
)
    requires
        holds_no_set(keys, scope_wait_key(ns, ctx, user, hash)),
        holds_no_text(keys, user_waits_key(ns, ctx, user)),
    ensures
        ({
            let (cleared, after) = clear_run(ns, ctx, user, hash, keys);
            &&& cleared == Some(Ok::<OutcomeView, SessionErrorView>(OutcomeView::Unit))
            &&& find_run(ns, ctx, user, hash, after) == (
                Some(Ok::<OutcomeView, SessionErrorView>(OutcomeView::MaybeKey(None))),
                after,
            )
            &&& clear_run(ns, ctx, user, hash, after) == (
                Some(Ok::<OutcomeView, SessionErrorView>(OutcomeView::Unit)),
                after,
            )
        }),
{
    let scope = scope_wait_key(ns, ctx, user, hash);
    if keys.contains_key(scope) {
        let raw = keys[scope]->Text_0;
        lemma_key_kinds_disjoint(ns, raw, ctx, user, ctx, user, hash);
    }
    reveal_with_fuel(run, 6);
}

/// Removing session `key`.
pub open spec fn remove_run(ns: Seq<char>, key: Seq<char>, keys: Keyspace) -> (
    Option<Result<OutcomeView, SessionErrorView>>,
    Keyspace,
) {
    run(RemoveSessionView::initial(ns, key), StepView::Issue(CommandView::Connect), keys, 4)
}

/// After a session is removed, its payload is gone and reading it finds
/// nothing.
pub proof fn law_removed_session_reads_as_absent(
    ns: Seq<char>,
    key: Seq<char>,
    data: SessionRecordView,
    payload: Seq<char>,
    keys: Keyspace,
)
    requires
        keys.contains_key(session_entry_key(ns, key)),
        keys[session_entry_key(ns, key)] == Stored::Text(payload),
        decoded_session(payload) == Some(data),
        tracked_in(ns, data.tenant_ctx) matches Some(w) ==> holds_no_text(keys, w),
    ensures
        ({
            let (removed, after) = remove_run(ns, key, keys);
            &&& removed == Some(Ok::<OutcomeView, SessionErrorView>(OutcomeView::Unit))
            &&& !after.contains_key(session_entry_key(ns, key))
            &&& read(ns, key, after) == Some(Ok::<OutcomeView, SessionErrorView>(OutcomeView::Session(None)))
        }),
{
    if let Some(u) = data.tenant_ctx.user_of() {
        lemma_key_kinds_disjoint(ns, key, data.tenant_ctx, u, data.tenant_ctx, u, Seq::empty());
    }
    reveal_with_fuel(run, 5);
}

/// Updating session `key` with `candidate`.
pub open spec fn update_run(ns: Seq<char>, key: Seq<char>, candidate: SessionRecordView, keys: Keyspace) -> (
    Option<Result<OutcomeView, SessionErrorView>>,
    Keyspace,
) {
    run(UpdateSessionView::initial(ns, key, candidate), StepView::Issue(CommandView::Connect), keys, 3)
}

/// Removing, or updating, a session that is not stored fails with
/// "not found" and leaves the keyspace as it was.
pub proof fn law_missing_session_is_not_found(
    ns: Seq<char>,
    key: Seq<char>,
    candidate: SessionRecordView,
    keys: Keyspace,
)
    requires
        !keys.contains_key(session_entry_key(ns, key)),
    ensures
        remove_run(ns, key, keys) == (
            Some(Err::<OutcomeView, SessionErrorView>(crate::session_ops::not_found_error(key))),
            keys,
        ),
        update_run(ns, key, candidate, keys) == (
            Some(Err::<OutcomeView, SessionErrorView>(crate::session_ops::not_found_error(key))),
            keys,
        ),
{
    reveal_with_fuel(run, 4);
}

/// An update that keeps the tenant context reads back with the new data;
/// one that changes it is refused and leaves the keyspace as it was.
pub proof fn law_update_reads_back_or_is_refused(
    ns: Seq<char>,
    key: Seq<char>,
    previous: SessionRecordView,
    candidate: SessionRecordView,
    stored_payload: Seq<char>,
    new_payload: Seq<char>,
    keys: Keyspace,
)
    requires
        keys.contains_key(session_entry_key(ns, key)),
        keys[session_entry_key(ns, key)] == Stored::Text(stored_payload),
        decoded_session(stored_payload) == Some(previous),
        round_trips(candidate, new_payload),
    ensures
        ({
            let (updated, after) = update_run(ns, key, candidate, keys);
            match preservation_failure(previous.tenant_ctx, candidate.tenant_ctx) {
                None => {
                    &&& updated == Some(Ok::<OutcomeView, SessionErrorView>(OutcomeView::Unit))
                    &&& read(ns, key, after) == Some(
                        Ok::<OutcomeView, SessionErrorView>(OutcomeView::Session(Some(candidate))),
                    )
                },
                Some(reason) => {
                    &&& updated == Some(Err::<OutcomeView, SessionErrorView>(
                        crate::tenant::mismatch_error(previous.tenant_ctx, candidate.tenant_ctx, reason),
                    ))
                    &&& after == keys
                },
            }
        }),
{
    reveal_with_fuel(run, 4);
}

/// The identity a stored context carries: environment, tenant, effective
/// team and effective user.
pub open spec fn identity(t: TenantView) -> (Seq<char>, Seq<char>, Option<Seq<char>>, Option<Seq<char>>) {
    (t.env, t.tenant_id, t.team_of(), t.user_of())
}

/// The identity of the session stored at `key`, if its payload decodes.
pub open spec fn stored_identity(keys: Keyspace, ns: Seq<char>, key: Seq<char>) -> Option<
    (Seq<char>, Seq<char>, Option<Seq<char>>, Option<Seq<char>>),
> {
    let e = session_entry_key(ns, key);
    if keys.contains_key(e) && keys[e] is Text {
        match decoded_session(keys[e]->Text_0) {
            Some(d) => Some(identity(d.tenant_ctx)),
            None => None,
        }
    } else {
        None
    }
}

/// The keyspace after updating session `key` with each candidate in turn,
/// whether each update succeeds or not.
pub open spec fn after_updates(ns: Seq<char>, key: Seq<char>, candidates: Seq<SessionRecordView>, keys: Keyspace) -> Keyspace
    decreases candidates.len(),
{
    if candidates.len() == 0 {
        keys
    } else {
        let k1 = update_run(ns, key, candidates[0], keys).1;
        after_updates(ns, key, candidates.drop_first(), k1)
    }
}

/// One update keeps the identity of a stored session.
proof fn lemma_update_keeps_identity(ns: Seq<char>, key: Seq<char>, candidate: SessionRecordView, keys: Keyspace)
    requires
        stored_identity(keys, ns, key) is Some,
        decoded_session(encoded_session(candidate)) == Some(candidate),
    ensures
        stored_identity(update_run(ns, key, candidate, keys).1, ns, key) == stored_identity(keys, ns, key),
{
    reveal_with_fuel(run, 4);
}

/// However many updates are made to a stored session, successful or not,
/// its environment, tenant, team and user stay what they were, provided
/// each candidate survives the codec.
pub proof fn law_updates_keep_identity(
    ns: Seq<char>,
    key: Seq<char>,
    candidates: Seq<SessionRecordView>,
    keys: Keyspace,
)
    requires
        stored_identity(keys, ns, key) is Some,
        forall|i: int|
            0 <= i < candidates.len() ==> decoded_session(encoded_session(#[trigger] candidates[i])) == Some(
                candidates[i],
            ),
    ensures
        stored_identity(after_updates(ns, key, candidates, keys), ns, key) == stored_identity(keys, ns, key),
    decreases candidates.len(),
{
    if candidates.len() > 0 {
        lemma_update_keeps_identity(ns, key, candidates[0], keys);
        let k1 = update_run(ns, key, candidates[0], keys).1;
        assert forall|i: int| 0 <= i < candidates.drop_first().len() implies decoded_session(
            encoded_session(#[trigger] candidates.drop_first()[i]),
        ) == Some(candidates.drop_first()[i]) by {
            assert(candidates.drop_first()[i] == candidates[i + 1]);
        }
        law_updates_keep_identity(ns, key, candidates.drop_first(), k1);
    }
}

/// A scope lookup answers only with a session that belongs to the caller's
/// environment, tenant, team and user, and that the scope names; it
/// changes nothing when it answers.
pub proof fn law_found_wait_belongs_to_caller(
    ns: Seq<char>,
    ctx: TenantView,
    user: Seq<char>,
    hash: Seq<char>,
    keys: Keyspace,
)
    ensures
        ({
            let (found, after) = find_run(ns, ctx, user, hash, keys);
            found matches Some(Ok(OutcomeView::MaybeKey(Some(k)))) ==> {
                &&& answers(keys, ns, k, ctx, user)
                &&& keys.contains_key(scope_wait_key(ns, ctx, user, hash))
                &&& keys[scope_wait_key(ns, ctx, user, hash)] == Stored::Text(k)
                &&& after == keys
            }
        }),
{
    reveal_with_fuel(run, 7);
}

/// A scope lookup that succeeds, repeated, answers the same and changes
/// nothing the second time.
pub proof fn law_repeated_lookup_is_stable(
    ns: Seq<char>,
    ctx: TenantView,
    user: Seq<char>,
    hash: Seq<char>,
    keys: Keyspace,
)
    ensures
        ({
            let (first, after) = find_run(ns, ctx, user, hash, keys);
            first matches Some(Ok(o)) ==> find_run(ns, ctx, user, hash, after) == (first, after)
        }),
{
    let scope = scope_wait_key(ns, ctx, user, hash);
    if keys.contains_key(scope) && keys[scope] is Text {
        let raw = keys[scope]->Text_0;
        lemma_key_kinds_disjoint(ns, raw, ctx, user, ctx, user, hash);
    }
    reveal_with_fuel(run, 7);
}

/// A scope lookup that meets a session that is gone, or that no longer
/// belongs to the caller, answers nothing and drops the scope key.
pub proof fn law_stale_scope_is_dropped(
    ns: Seq<char>,
    ctx: TenantView,
    user: Seq<char>,
    hash: Seq<char>,
    raw: Seq<char>,
    keys: Keyspace,
)
    requires
        keys.contains_key(scope_wait_key(ns, ctx, user, hash)),
        keys[scope_wait_key(ns, ctx, user, hash)] == Stored::Text(raw),
        holds_no_set(keys, session_entry_key(ns, raw)),
        holds_no_text(keys, user_waits_key(ns, ctx, user)),
        keys.contains_key(session_entry_key(ns, raw)) ==> (decoded_session(keys[session_entry_key(ns, raw)]->Text_0) matches Some(
            stored,
        ) && !wait_belongs_to(stored.tenant_ctx, ctx, user)),
    ensures
        ({
            let (found, after) = find_run(ns, ctx, user, hash, keys);
            &&& found == Some(Ok::<OutcomeView, SessionErrorView>(OutcomeView::MaybeKey(None)))
            &&& !after.contains_key(scope_wait_key(ns, ctx, user, hash))
        }),
{
    lemma_key_kinds_disjoint(ns, raw, ctx, user, ctx, user, hash);
    reveal_with_fuel(run, 7);
}

/// Two keyspaces agree on every key but `w`.
pub open spec fn agree_except(keys: Keyspace, base: Keyspace, w: Seq<char>) -> bool {
    forall|k: Seq<char>|
        k != w ==> (#[trigger] keys.contains_key(k) <==> base.contains_key(k)) && (keys.contains_key(k)
            ==> keys[k] == base[k])
}

/// What holds of a running wait listing of `user` in `ctx`, started on
/// keyspace `base`, whose pending step is `step` and whose keyspace is now
/// `keys`.
pub open spec fn list_inv(
    l: ListWaitsForUserView,
    step: StepView,
    keys: Keyspace,
    base: Keyspace,
    ns: Seq<char>,
    ctx: TenantView,
    user: Seq<char>,
) -> bool {
    &&& l.ns == ns
    &&& l.ctx == ctx
    &&& l.user == user
    &&& l.waits_key == user_waits_key(ns, ctx, user)
    &&& agree_except(keys, base, l.waits_key)
    &&& forall|i: int| 0 <= i < l.results.len() ==> answers(base, ns, #[trigger] l.results[i], ctx, user)
    &&& match l.phase {
        ListPhase::Connecting => step == StepView::Issue(CommandView::Connect),
        ListPhase::Listing => step == StepView::Issue(CommandView::ListMembers { key: l.waits_key }),
        ListPhase::Loading => {
            &&& l.get.entry_key == session_entry_key(ns, l.current)
            &&& match l.get.phase {
                GetPhase::Connecting => step == StepView::Issue(CommandView::Connect),
                GetPhase::Reading => step == StepView::Issue(CommandView::Get { key: l.get.entry_key }),
                GetPhase::Finished => false,
            }
        },
        ListPhase::Untracking => step == StepView::Issue(
            CommandView::RemoveMember { key: l.waits_key, member: l.current },
        ),
        ListPhase::Finished => step matches StepView::Finish(res) && (res matches Ok(o) ==> o == OutcomeView::Keys(
            l.results,
        )),
    }
}

/// The listing invariant holds after moving to the next member.
proof fn lemma_list_next_member(
    l: ListWaitsForUserView,
    keys: Keyspace,
    base: Keyspace,
    ns: Seq<char>,
    ctx: TenantView,
    user: Seq<char>,
)
    requires
        l.ns == ns,
        l.ctx == ctx,
        l.user == user,
        l.waits_key == user_waits_key(ns, ctx, user),
        agree_except(keys, base, l.waits_key),
        forall|i: int| 0 <= i < l.results.len() ==> answers(base, ns, #[trigger] l.results[i], ctx, user),
    ensures
        list_inv(l.next_member().0, l.next_member().1, keys, base, ns, ctx, user),
        list_inv(l.advance().0, l.advance().1, keys, base, ns, ctx, user),
{
}

/// One step of a wait listing keeps its invariant.
proof fn lemma_list_inv_step(
    l: ListWaitsForUserView,
    cmd: CommandView,
    keys: Keyspace,
    base: Keyspace,
    ns: Seq<char>,
    ctx: TenantView,
    user: Seq<char>,
)
    requires
        list_inv(l, StepView::Issue(cmd), keys, base, ns, ctx, user),
    ensures
        ({
            let (reply, keys2) = perform(keys, cmd);
            let (l2, step2) = l.next(reply);
            list_inv(l2, step2, keys2, base, ns, ctx, user)
        }),
{
    let (reply, keys2) = perform(keys, cmd);
    let w = l.waits_key;
    match l.phase {
        ListPhase::Listing => {
            if reply is Members {
                let l1 = ListWaitsForUserView {
                    members: reply->Members_0,
                    index: 0,
                    results: Seq::empty(),
                    ..l
                };
                lemma_list_next_member(l1, keys2, base, ns, ctx, user);
            }
        },
        ListPhase::Loading => {
            lemma_key_kinds_disjoint(ns, l.current, ctx, user, ctx, user, Seq::empty());
            assert(l.get.entry_key != w);
            let (g, s) = l.get.next(reply);
            match s {
                StepView::Finish(Ok(OutcomeView::Session(Some(stored)))) => {
                    if wait_belongs_to(stored.tenant_ctx, l.ctx, l.user) {
                        let l1 = ListWaitsForUserView { get: g, results: l.results.push(l.current), ..l };
                        assert(answers(base, ns, l.current, ctx, user));
                        assert forall|i: int| 0 <= i < l1.results.len() implies answers(
                            base,
                            ns,
                            #[trigger] l1.results[i],
                            ctx,
                            user,
                        ) by {
                            if i < l.results.len() {
                                assert(l1.results[i] == l.results[i]);
                            }
                        }
                        lemma_list_next_member(l1, keys2, base, ns, ctx, user);
                    }
                },
                _ => {},
            }
        },
        ListPhase::Untracking => {
            if reply is Done {
                assert(agree_except(keys2, base, w));
                lemma_list_next_member(l, keys2, base, ns, ctx, user);
            }
        },
        _ => {},
    }
}

/// Running a wait listing keeps its invariant to the end: every key it
/// returns answers the caller, and it changes no key but the wait set.
proof fn lemma_list_run(
    l: ListWaitsForUserView,
    step: StepView,
    keys: Keyspace,
    base: Keyspace,
    ns: Seq<char>,
    ctx: TenantView,
    user: Seq<char>,
    fuel: nat,
)
    requires
        list_inv(l, step, keys, base, ns, ctx, user),
    ensures
        ({
            let (res, after) = run(l, step, keys, fuel);
            &&& res matches Some(Ok(OutcomeView::Keys(ks))) ==> forall|i: int|
                0 <= i < ks.len() ==> answers(base, ns, #[trigger] ks[i], ctx, user)
            &&& agree_except(after, base, user_waits_key(ns, ctx, user))
        }),
    decreases fuel,
{
    match step {
        StepView::Finish(_) => {},
        StepView::Issue(cmd) => {
            if fuel > 0 {
                lemma_list_inv_step(l, cmd, keys, base, ns, ctx, user);
                let (reply, keys2) = perform(keys, cmd);
                let (l2, step2) = l.next(reply);
                lemma_list_run(l2, step2, keys2, base, ns, ctx, user, (fuel - 1) as nat);
            }
        },
    }
}

/// Every session a wait listing returns belongs to the caller's
/// environment, tenant, team and user; the listing changes no key but the
/// user's wait set.
pub proof fn law_listed_waits_belong_to_caller(
    ns: Seq<char>,
    ctx: TenantView,
    user: Seq<char>,
    keys: Keyspace,
    fuel: nat,
)
    ensures
        ({
            let (listed, after) = run(
                ListWaitsForUserView::initial(ns, ctx, user),
                StepView::Issue(CommandView::Connect),
                keys,
                fuel,
            );
            &&& listed matches Some(Ok(OutcomeView::Keys(ks))) ==> forall|i: int|
                0 <= i < ks.len() ==> answers(keys, ns, #[trigger] ks[i], ctx, user)
            &&& agree_except(after, keys, user_waits_key(ns, ctx, user))
        }),
{
    lemma_list_run(
        ListWaitsForUserView::initial(ns, ctx, user),
        StepView::Issue(CommandView::Connect),
        keys,
        keys,
        ns,
        ctx,
        user,
        fuel,
    );
}

/// What holds of a running single-wait lookup of `user` in `ctx`, started
/// on keyspace `base`.
pub open spec fn find_by_user_inv(
    f: FindByUserView,
    step: StepView,
    keys: Keyspace,
    base: Keyspace,
    ns: Seq<char>,
    ctx: TenantView,
    user: Seq<char>,
) -> bool {
    &&& f.ns == ns
    &&& match f.phase {
        FindByUserPhase::Listing => list_inv(f.list, step, keys, base, ns, ctx, user),
        FindByUserPhase::Loading => {
            &&& agree_except(keys, base, user_waits_key(ns, ctx, user))
            &&& answers(base, ns, f.key, ctx, user)
            &&& f.get.entry_key == session_entry_key(ns, f.key)
            &&& match f.get.phase {
                GetPhase::Connecting => step == StepView::Issue(CommandView::Connect),
                GetPhase::Reading => step == StepView::Issue(CommandView::Get { key: f.get.entry_key }),
                GetPhase::Finished => false,
            }
        },
        FindByUserPhase::Finished => step matches StepView::Finish(res) && (res matches Ok(
            OutcomeView::MaybeSession(Some((k, d))),
        ) ==> answers(base, ns, k, ctx, user) && decoded_session(base[session_entry_key(ns, k)]->Text_0) == Some(
            d,
        )),
    }
}

/// One step of a single-wait lookup keeps its invariant.
proof fn lemma_find_by_user_inv_step(
    f: FindByUserView,
    cmd: CommandView,
    keys: Keyspace,
    base: Keyspace,
    ns: Seq<char>,
    ctx: TenantView,
    user: Seq<char>,
)
    requires
        find_by_user_inv(f, StepView::Issue(cmd), keys, base, ns, ctx, user),
    ensures
        ({
            let (reply, keys2) = perform(keys, cmd);
            let (f2, step2) = f.next(reply);
            find_by_user_inv(f2, step2, keys2, base, ns, ctx, user)
        }),
{
    let (reply, keys2) = perform(keys, cmd);
    match f.phase {
        FindByUserPhase::Listing => {
            lemma_list_inv_step(f.list, cmd, keys, base, ns, ctx, user);
            let (l2, s) = f.list.next(reply);
            match s {
                StepView::Finish(Ok(OutcomeView::Keys(ks))) => {
                    if ks.len() == 1 {
                        assert(answers(base, ns, ks[0], ctx, user));
                    }
                },
                _ => {},
            }
        },
        FindByUserPhase::Loading => {
            lemma_key_kinds_disjoint(ns, f.key, ctx, user, ctx, user, Seq::empty());
        },
        _ => {},
    }
}

/// Running a single-wait lookup keeps its invariant to the end.
proof fn lemma_find_by_user_run(
    f: FindByUserView,
    step: StepView,
    keys: Keyspace,
    base: Keyspace,
    ns: Seq<char>,
    ctx: TenantView,
    user: Seq<char>,
    fuel: nat,
)
    requires
        find_by_user_inv(f, step, keys, base, ns, ctx, user),
    ensures
        run(f, step, keys, fuel).0 matches Some(Ok(OutcomeView::MaybeSession(Some((k, d)))))
            ==> answers(base, ns, k, ctx, user) && decoded_session(base[session_entry_key(ns, k)]->Text_0)
            == Some(d),
    decreases fuel,
{
    match step {
        StepView::Finish(_) => {},
        StepView::Issue(cmd) => {
            if fuel > 0 {
                lemma_find_by_user_inv_step(f, cmd, keys, base, ns, ctx, user);
                let (reply, keys2) = perform(keys, cmd);
                let (f2, step2) = f.next(reply);
                lemma_find_by_user_run(f2, step2, keys2, base, ns, ctx, user, (fuel - 1) as nat);
            }
        },
    }
}

/// The session a single-wait lookup returns belongs to the caller's
/// environment, tenant, team and user, and its data is what its stored
/// payload decodes to.
pub proof fn law_found_user_wait_belongs_to_caller(
    ns: Seq<char>,
    ctx: TenantView,
    user: Seq<char>,
    keys: Keyspace,
    fuel: nat,
)
    ensures
        run(
            FindByUserView::initial(ns, ctx, user),
            StepView::Issue(CommandView::Connect),
            keys,
            fuel,
        ).0 matches Some(Ok(OutcomeView::MaybeSession(Some((k, d))))) ==> {
            &&& wait_belongs_to(d.tenant_ctx, ctx, user)
            &&& answers(keys, ns, k, ctx, user)
            &&& decoded_session(keys[session_entry_key(ns, k)]->Text_0) == Some(d)
        },
{
    lemma_find_by_user_run(
        FindByUserView::initial(ns, ctx, user),
        StepView::Issue(CommandView::Connect),
        keys,
        keys,
        ns,
        ctx,
        user,
        fuel,
    );
}

/// Listing a set that holds one member gives that member.
proof fn lemma_singleton_to_seq(k: Seq<char>)
    ensures
        Set::<Seq<char>>::empty().insert(k).to_seq() == seq![k],
{
    let one = Set::<Seq<char>>::empty().insert(k);
    assert(one.len() == 1);
    assert(one.contains(k));
    let x = one.choose();
    assert(one.contains(x));
    assert(x == k);
    assert(one.remove(x) =~= Set::<Seq<char>>::empty());
    assert(one.remove(x).len() == 0);
    assert(one.to_seq() == Seq::<Seq<char>>::empty().push(x) + one.remove(x).to_seq());
    assert(one.to_seq() =~= seq![k]);
}

/// Finding the single wait of `user` in `ctx`.
pub open spec fn find_by_user_run(ns: Seq<char>, ctx: TenantView, user: Seq<char>, keys: Keyspace, fuel: nat) -> (
    Option<Result<OutcomeView, SessionErrorView>>,
    Keyspace,
) {
    run(FindByUserView::initial(ns, ctx, user), StepView::Issue(CommandView::Connect), keys, fuel)
}

/// A user whose only wait is a just-registered session is found by user,
/// with that session's data.
pub proof fn law_single_wait_is_found_by_user(
    ns: Seq<char>,
    ctx: TenantView,
    user: Seq<char>,
    hash: Seq<char>,
    session_key: Seq<char>,
    data: SessionRecordView,
    ttl_ms: Option<u128>,
    payload: Seq<char>,
    keys: Keyspace,
)
    requires
        alignment_failure(ctx, data.tenant_ctx) is None,
        wait_user_failure(ctx, user, data.tenant_ctx) is None,
        round_trips(data, payload),
        holds_no_set(keys, scope_wait_key(ns, ctx, user, hash)),
        !keys.contains_key(user_waits_key(ns, ctx, user)),
    ensures
        ({
            let (registered, after) = register_run(ns, ctx, user, hash, session_key, ttl_ms, data, keys);
            &&& registered == Some(Ok::<OutcomeView, SessionErrorView>(OutcomeView::Unit))
            &&& find_by_user_run(ns, ctx, user, after, 6).0 == Some(Ok::<OutcomeView, SessionErrorView>(
                OutcomeView::MaybeSession(Some((session_key, data))),
            ))
        }),
{
    lemma_register_effect(ns, ctx, user, hash, session_key, ttl_ms, data, payload, keys);
    lemma_singleton_to_seq(session_key);
    lemma_key_kinds_disjoint(ns, session_key, ctx, user, ctx, user, hash);
    reveal_with_fuel(run, 7);
}

/// Listing the waits of `user` in `ctx`.
pub open spec fn list_run(ns: Seq<char>, ctx: TenantView, user: Seq<char>, keys: Keyspace, fuel: nat) -> (
    Option<Result<OutcomeView, SessionErrorView>>,
    Keyspace,
) {
    run(ListWaitsForUserView::initial(ns, ctx, user), StepView::Issue(CommandView::Connect), keys, fuel)
}

/// A removed session is not listed among anyone's waits.
pub proof fn law_removed_session_is_not_listed(
    ns: Seq<char>,
    key: Seq<char>,
    data: SessionRecordView,
    payload: Seq<char>,
    keys: Keyspace,
    ctx: TenantView,
    user: Seq<char>,
    fuel: nat,
)
    requires
        keys.contains_key(session_entry_key(ns, key)),
        keys[session_entry_key(ns, key)] == Stored::Text(payload),
        decoded_session(payload) == Some(data),
        tracked_in(ns, data.tenant_ctx) matches Some(w) ==> holds_no_text(keys, w),
    ensures
        ({
            let after = remove_run(ns, key, keys).1;
            list_run(ns, ctx, user, after, fuel).0 matches Some(Ok(OutcomeView::Keys(ks))) ==> !ks.contains(key)
        }),
{
    law_removed_session_reads_as_absent(ns, key, data, payload, keys);
    let after = remove_run(ns, key, keys).1;
    law_absent_session_is_not_listed(ns, key, after, ctx, user, fuel);
}

/// Listing a finite set gives each of its members, each once.
proof fn lemma_to_seq_once(s: Set<Seq<char>>)
    requires
        s.finite(),
    ensures
        s.to_seq().no_duplicates(),
        s.to_seq().len() == s.len(),
        forall|x: Seq<char>| s.to_seq().contains(x) <==> s.contains(x),
    decreases s.len(),
{
    s.lemma_to_seq_to_set_id();
    assert forall|x: Seq<char>| s.to_seq().contains(x) <==> s.contains(x) by {
        assert(s.to_seq().to_set().contains(x) <==> s.to_seq().contains(x));
    }
    if s.len() > 0 {
        let x = s.choose();
        let rest = s.remove(x);
        lemma_to_seq_once(rest);
        let t = rest.to_seq();
        assert(s.to_seq() == Seq::<Seq<char>>::empty().push(x) + t);
        assert(!t.contains(x));
        vstd::seq_lib::lemma_no_dup_in_concat(Seq::<Seq<char>>::empty().push(x), t);
    }
}

/// The members a listing of key `w` meets: those of the set it holds.
pub open spec fn listed_members(keys: Keyspace, w: Seq<char>) -> Seq<Seq<char>> {
    if keys.contains_key(w) && keys[w] is Members {
        keys[w]->Members_0.to_seq()
    } else {
        Seq::empty()
    }
}

/// The set key `w` holds, if it holds one, is finite.
pub open spec fn finite_set_at(keys: Keyspace, w: Seq<char>) -> bool {
    keys.contains_key(w) && keys[w] is Members ==> keys[w]->Members_0.finite()
}

/// What a running wait listing has gathered: each member it has passed
/// whose session answers the caller, once, and nothing else.
pub open spec fn list_complete_inv(
    l: ListWaitsForUserView,
    step: StepView,
    keys: Keyspace,
    base: Keyspace,
    ns: Seq<char>,
    ctx: TenantView,
    user: Seq<char>,
) -> bool {
    let started = !(l.phase is Connecting || l.phase is Listing);
    &&& list_inv(l, step, keys, base, ns, ctx, user)
    &&& finite_set_at(base, l.waits_key)
    &&& !started ==> keys == base && l.members == Seq::<Seq<char>>::empty() && l.index == 0 && l.results
        == Seq::<Seq<char>>::empty()
    &&& started ==> gathered(l, base, ns, ctx, user)
    &&& (l.phase is Loading || l.phase is Untracking) ==> l.index < l.members.len() && l.current
        == l.members[l.index]
    &&& l.phase is Untracking ==> !answers(base, ns, l.current, ctx, user)
    &&& step matches StepView::Finish(Ok(_)) ==> started && l.index >= l.members.len()
}

/// What a listing has gathered once it has passed the members before `index`.
pub open spec fn gathered(l: ListWaitsForUserView, base: Keyspace, ns: Seq<char>, ctx: TenantView, user: Seq<char>) -> bool {
    &&& l.members == listed_members(base, l.waits_key)
    &&& l.members.no_duplicates()
    &&& 0 <= l.index <= l.members.len()
    &&& l.results.no_duplicates()
    &&& forall|i: int, j: int|
        0 <= i < l.results.len() && l.index <= j < l.members.len() ==> #[trigger] l.results[i]
            != #[trigger] l.members[j]
    &&& forall|j: int|
        0 <= j < l.index && answers(base, ns, #[trigger] l.members[j], ctx, user) ==> l.results.contains(
            l.members[j],
        )
}

/// Moving to the next member keeps what a listing has gathered.
proof fn lemma_list_complete_next(
    l: ListWaitsForUserView,
    keys: Keyspace,
    base: Keyspace,
    ns: Seq<char>,
    ctx: TenantView,
    user: Seq<char>,
)
    requires
        l.ns == ns,
        l.ctx == ctx,
        l.user == user,
        l.waits_key == user_waits_key(ns, ctx, user),
        agree_except(keys, base, l.waits_key),
        forall|i: int| 0 <= i < l.results.len() ==> answers(base, ns, #[trigger] l.results[i], ctx, user),
        finite_set_at(base, l.waits_key),
        gathered(l, base, ns, ctx, user),
    ensures
        list_complete_inv(l.next_member().0, l.next_member().1, keys, base, ns, ctx, user),
{
    lemma_list_next_member(l, keys, base, ns, ctx, user);
}

/// Moving past a handled member keeps what a listing has gathered.
proof fn lemma_list_complete_advance(
    l: ListWaitsForUserView,
    keys: Keyspace,
    base: Keyspace,
    ns: Seq<char>,
    ctx: TenantView,
    user: Seq<char>,
)
    requires
        l.ns == ns,
        l.ctx == ctx,
        l.user == user,
        l.waits_key == user_waits_key(ns, ctx, user),
        agree_except(keys, base, l.waits_key),
        forall|i: int| 0 <= i < l.results.len() ==> answers(base, ns, #[trigger] l.results[i], ctx, user),
        finite_set_at(base, l.waits_key),
        gathered(l, base, ns, ctx, user),
        l.index < l.members.len(),
        answers(base, ns, l.members[l.index], ctx, user) ==> l.results.contains(l.members[l.index]),
    ensures
        list_complete_inv(l.advance().0, l.advance().1, keys, base, ns, ctx, user),
{
    let l1 = ListWaitsForUserView { index: l.index + 1, ..l };
    assert forall|j: int|
        0 <= j < l1.index && answers(base, ns, #[trigger] l1.members[j], ctx, user) implies l1.results.contains(
        l1.members[j],
    ) by {
        if j < l.index {
        }
    }
    lemma_list_complete_next(l1, keys, base, ns, ctx, user);
}

/// One step of a wait listing keeps what it has gathered.
proof fn lemma_list_complete_step(
    l: ListWaitsForUserView,
    cmd: CommandView,
    keys: Keyspace,
    base: Keyspace,
    ns: Seq<char>,
    ctx: TenantView,
    user: Seq<char>,
)
    requires
        list_complete_inv(l, StepView::Issue(cmd), keys, base, ns, ctx, user),
    ensures
        ({
            let (reply, keys2) = perform(keys, cmd);
            let (l2, step2) = l.next(reply);
            list_complete_inv(l2, step2, keys2, base, ns, ctx, user)
        }),
{
    lemma_list_inv_step(l, cmd, keys, base, ns, ctx, user);
    let (reply, keys2) = perform(keys, cmd);
    let w = l.waits_key;
    match l.phase {
        ListPhase::Listing => {
            if reply is Members {
                if base.contains_key(w) && base[w] is Members {
                    lemma_to_seq_once(base[w]->Members_0);
                }
                let l1 = ListWaitsForUserView {
                    members: reply->Members_0,
                    index: 0,
                    results: Seq::empty(),
                    ..l
                };
                lemma_list_complete_next(l1, keys2, base, ns, ctx, user);
            }
        },
        ListPhase::Loading => {
            lemma_key_kinds_disjoint(ns, l.current, ctx, user, ctx, user, Seq::empty());
            assert(l.get.entry_key != w);
            let (g, s) = l.get.next(reply);
            match s {
                StepView::Finish(Ok(OutcomeView::Session(Some(stored)))) => {
                    if wait_belongs_to(stored.tenant_ctx, l.ctx, l.user) {
                        let l1 = ListWaitsForUserView {
                            get: g,
                            results: l.results.push(l.current),
                            index: l.index + 1,
                            ..l
                        };
                        assert(answers(base, ns, l.current, ctx, user));
                        assert forall|i: int| 0 <= i < l1.results.len() implies answers(
                            base,
                            ns,
                            #[trigger] l1.results[i],
                            ctx,
                            user,
                        ) by {
                            if i < l.results.len() {
                                assert(l1.results[i] == l.results[i]);
                            }
                        }
                        assert forall|i: int, j: int|
                            0 <= i < l1.results.len() && l1.index <= j < l1.members.len() implies #[trigger] l1.results[i]
                            != #[trigger] l1.members[j] by {
                            if i < l.results.len() {
                                assert(l1.results[i] == l.results[i]);
                            }
                        }
                        assert forall|i: int, j: int|
                            0 <= i < l1.results.len() && 0 <= j < l1.results.len() && i != j implies l1.results[i]
                            != l1.results[j] by {
                            if i < l.results.len() && j < l.results.len() {
                                assert(l1.results[i] == l.results[i]);
                                assert(l1.results[j] == l.results[j]);
                            } else if i < l.results.len() {
                                assert(l1.results[i] == l.results[i]);
                                assert(l.results[i] != l.members[l.index]);
                            } else {
                                assert(l1.results[j] == l.results[j]);
                                assert(l.results[j] != l.members[l.index]);
                            }
                        }
                        assert forall|j: int|
                            0 <= j < l1.index && answers(base, ns, #[trigger] l1.members[j], ctx, user) implies l1.results.contains(
                            l1.members[j],
                        ) by {
                            if j < l.index {
                                let k = choose|k: int| 0 <= k < l.results.len() && l.results[k] == l.members[j];
                                assert(l1.results[k] == l.members[j]);
                            } else {
                                assert(l1.results[l.results.len() as int] == l.current);
                            }
                        }
                        lemma_list_complete_next(l1, keys2, base, ns, ctx, user);
                    }
                },
                _ => {},
            }
        },
        ListPhase::Untracking => {
            if reply is Done {
                lemma_list_complete_advance(l, keys2, base, ns, ctx, user);
            }
        },
        _ => {},
    }
}

/// Running a wait listing keeps what it has gathered to the end: a listing
/// that succeeds returns each member once whose session answers the caller.
proof fn lemma_list_complete_run(
    l: ListWaitsForUserView,
    step: StepView,
    keys: Keyspace,
    base: Keyspace,
    ns: Seq<char>,
    ctx: TenantView,
    user: Seq<char>,
    fuel: nat,
)
    requires
        list_complete_inv(l, step, keys, base, ns, ctx, user),
    ensures
        ({
            let members = listed_members(base, user_waits_key(ns, ctx, user));
            run(l, step, keys, fuel).0 matches Some(Ok(OutcomeView::Keys(ks))) ==> {
                &&& ks.no_duplicates()
                &&& forall|j: int|
                    0 <= j < members.len() && answers(base, ns, #[trigger] members[j], ctx, user) ==> ks.contains(
                        members[j],
                    )
            }
        }),
    decreases fuel,
{
    match step {
        StepView::Finish(_) => {},
        StepView::Issue(cmd) => {
            if fuel > 0 {
                lemma_list_complete_step(l, cmd, keys, base, ns, ctx, user);
                let (reply, keys2) = perform(keys, cmd);
                let (l2, step2) = l.next(reply);
                lemma_list_complete_run(l2, step2, keys2, base, ns, ctx, user, (fuel - 1) as nat);
            }
        },
    }
}

/// A listing of a user's waits that succeeds returns each session of the
/// user's wait set whose stored payload belongs to the caller, and returns
/// no session twice.
pub proof fn law_answering_wait_is_listed_once(
    ns: Seq<char>,
    ctx: TenantView,
    user: Seq<char>,
    k: Seq<char>,
    keys: Keyspace,
    fuel: nat,
)
    requires
        keys.contains_key(user_waits_key(ns, ctx, user)),
        keys[user_waits_key(ns, ctx, user)] matches Stored::Members(s) && s.finite() && s.contains(k),
        answers(keys, ns, k, ctx, user),
    ensures
        list_run(ns, ctx, user, keys, fuel).0 matches Some(Ok(OutcomeView::Keys(ks))) ==> {
            &&& ks.contains(k)
            &&& ks.no_duplicates()
        },
{
    let w = user_waits_key(ns, ctx, user);
    let st = keys[w]->Members_0;
    lemma_to_seq_once(st);
    let members = listed_members(keys, w);
    assert(members.contains(k));
    let j = choose|j: int| 0 <= j < members.len() && members[j] == k;
    let l0 = ListWaitsForUserView::initial(ns, ctx, user);
    assert(agree_except(keys, keys, w));
    lemma_list_complete_run(l0, StepView::Issue(CommandView::Connect), keys, keys, ns, ctx, user, fuel);
    assert(answers(keys, ns, members[j], ctx, user));
}

/// A wait just registered is listed among the user's waits, once, by a
/// listing that succeeds.
pub proof fn law_registered_wait_is_listed_once(
    ns: Seq<char>,
    ctx: TenantView,
    user: Seq<char>,
    hash: Seq<char>,
    session_key: Seq<char>,
    data: SessionRecordView,
    ttl_ms: Option<u128>,
    payload: Seq<char>,
    keys: Keyspace,
    fuel: nat,
)
    requires
        alignment_failure(ctx, data.tenant_ctx) is None,
        wait_user_failure(ctx, user, data.tenant_ctx) is None,
        round_trips(data, payload),
        holds_no_set(keys, scope_wait_key(ns, ctx, user, hash)),
        holds_no_text(keys, user_waits_key(ns, ctx, user)),
        finite_set_at(keys, user_waits_key(ns, ctx, user)),
    ensures
        ({
            let (registered, after) = register_run(ns, ctx, user, hash, session_key, ttl_ms, data, keys);
            &&& registered == Some(Ok::<OutcomeView, SessionErrorView>(OutcomeView::Unit))
            &&& list_run(ns, ctx, user, after, fuel).0 matches Some(Ok(OutcomeView::Keys(ks))) ==> {
                &&& ks.contains(session_key)
                &&& ks.no_duplicates()
            }
        }),
{
    lemma_register_effect(ns, ctx, user, hash, session_key, ttl_ms, data, payload, keys);
    let after = register_run(ns, ctx, user, hash, session_key, ttl_ms, data, keys).1;
    assert(answers(after, ns, session_key, ctx, user));
    law_answering_wait_is_listed_once(ns, ctx, user, session_key, after, fuel);
}

/// The entry of session `k` is absent, or holds a payload that decodes.
pub open spec fn entry_readable(keys: Keyspace, ns: Seq<char>, k: Seq<char>) -> bool {
    let e = session_entry_key(ns, k);
    keys.contains_key(e) ==> keys[e] is Text && decoded_session(keys[e]->Text_0) is Some
}

/// A wait set that a listing can read through: the key holds no text, its
/// set is finite, and the entry of every member is absent or decodes.
pub open spec fn readable_waits(keys: Keyspace, ns: Seq<char>, w: Seq<char>) -> bool {
    &&& holds_no_text(keys, w)
    &&& finite_set_at(keys, w)
    &&& forall|k: Seq<char>| #[trigger] members_at(keys, w).contains(k) ==> entry_readable(keys, ns, k)
}

/// What is left of a wait listing: at most this many commands.
pub open spec fn listing_work(l: ListWaitsForUserView, n: int) -> int {
    let left = 3 * (l.members.len() - l.index);
    match l.phase {
        ListPhase::Connecting => 2 + 3 * n,
        ListPhase::Listing => 1 + 3 * n,
        ListPhase::Loading => if l.get.phase is Connecting {
            left
        } else {
            left - 1
        },
        ListPhase::Untracking => left - 2,
        ListPhase::Finished => 0,
    }
}

/// What holds of a wait listing over a readable wait set: it never fails,
/// and the wait set keeps the members not yet passed and, of those passed,
/// exactly the ones whose sessions answer the caller.
pub open spec fn list_exact_inv(
    l: ListWaitsForUserView,
    step: StepView,
    keys: Keyspace,
    base: Keyspace,
    ns: Seq<char>,
    ctx: TenantView,
    user: Seq<char>,
) -> bool {
    let w = l.waits_key;
    let started = !(l.phase is Connecting || l.phase is Listing);
    &&& list_complete_inv(l, step, keys, base, ns, ctx, user)
    &&& readable_waits(base, ns, w)
    &&& holds_no_text(keys, w)
    &&& started ==> forall|j: int|
        0 <= j < l.members.len() ==> (members_at(keys, w).contains(#[trigger] l.members[j]) <==> (j >= l.index
            || answers(base, ns, l.members[j], ctx, user)))
    &&& started ==> forall|x: Seq<char>| #[trigger] members_at(keys, w).contains(x) ==> members_at(base, w).contains(x)
    &&& forall|i: int| 0 <= i < l.results.len() ==> members_at(base, w).contains(#[trigger] l.results[i])
    &&& step matches StepView::Finish(r) ==> r == Ok::<OutcomeView, SessionErrorView>(OutcomeView::Keys(l.results))
        && started && l.index == l.members.len()
}

/// One step of a wait listing over a readable wait set keeps its exact
/// invariant, and leaves less work.
proof fn lemma_list_exact_step(
    l: ListWaitsForUserView,
    cmd: CommandView,
    keys: Keyspace,
    base: Keyspace,
    ns: Seq<char>,
    ctx: TenantView,
    user: Seq<char>,
)
    requires
        list_exact_inv(l, StepView::Issue(cmd), keys, base, ns, ctx, user),
    ensures
        ({
            let n = listed_members(base, l.waits_key).len() as int;
            let (reply, keys2) = perform(keys, cmd);
            let (l2, step2) = l.next(reply);
            &&& list_exact_inv(l2, step2, keys2, base, ns, ctx, user)
            &&& listing_work(l2, n) < listing_work(l, n)
            &&& l2.waits_key == l.waits_key
        }),
{
    lemma_list_complete_step(l, cmd, keys, base, ns, ctx, user);
    let (reply, keys2) = perform(keys, cmd);
    let w = l.waits_key;
    match l.phase {
        ListPhase::Listing => {
            if base.contains_key(w) && base[w] is Members {
                lemma_to_seq_once(base[w]->Members_0);
            }
            assert(reply == ReplyView::Members(listed_members(base, w)));
            let l1 = ListWaitsForUserView {
                members: reply->Members_0,
                index: 0,
                results: Seq::empty(),
                ..l
            };
            assert forall|j: int| 0 <= j < l1.members.len() implies members_at(keys2, w).contains(
                #[trigger] l1.members[j],
            ) by {
                assert(l1.members.contains(l1.members[j]));
            }
        },
        ListPhase::Loading => {
            lemma_key_kinds_disjoint(ns, l.current, ctx, user, ctx, user, Seq::empty());
            let members = l.members;
            assert(members.contains(l.current));
            if base.contains_key(w) && base[w] is Members {
                lemma_to_seq_once(base[w]->Members_0);
            }
            assert(members_at(base, w).contains(l.current));
            assert(entry_readable(base, ns, l.current));
            let (g, st) = l.get.next(reply);
            match st {
                StepView::Finish(Ok(OutcomeView::Session(Some(stored)))) => {
                    if wait_belongs_to(stored.tenant_ctx, l.ctx, l.user) {
                        let l1 = ListWaitsForUserView {
                            get: g,
                            results: l.results.push(l.current),
                            index: l.index + 1,
                            ..l
                        };
                        assert forall|j: int| 0 <= j < l1.members.len() implies (members_at(keys2, w).contains(
                            #[trigger] l1.members[j],
                        ) <==> (j >= l1.index || answers(base, ns, l1.members[j], ctx, user))) by {
                            if j == l.index {
                                assert(answers(base, ns, l.current, ctx, user));
                            }
                        }
                    }
                },
                _ => {},
            }
        },
        ListPhase::Untracking => {
            let cur = l.current;
            assert(members_at(keys, w).contains(l.members[l.index]));
            let st = keys[w]->Members_0;
            assert(members_at(keys2, w) =~= st.remove(cur));
            let l1 = ListWaitsForUserView { index: l.index + 1, ..l };
            assert forall|j: int| 0 <= j < l1.members.len() implies (members_at(keys2, w).contains(
                #[trigger] l1.members[j],
            ) <==> (j >= l1.index || answers(base, ns, l1.members[j], ctx, user))) by {
                if j != l.index {
                    assert(l.members[j] != l.members[l.index]);
                    assert(members_at(keys, w).contains(l.members[j]) <==> (j >= l.index || answers(
                        base,
                        ns,
                        l.members[j],
                        ctx,
                        user,
                    )));
                }
            }
        },
        _ => {},
    }
}

/// A wait listing over a readable wait set, given enough commands, finishes
/// with its gathered keys, and the wait set keeps exactly the members whose
/// sessions answer the caller.
proof fn lemma_list_exact_run(
    l: ListWaitsForUserView,
    step: StepView,
    keys: Keyspace,
    base: Keyspace,
    ns: Seq<char>,
    ctx: TenantView,
    user: Seq<char>,
    fuel: nat,
)
    requires
        list_exact_inv(l, step, keys, base, ns, ctx, user),
        fuel >= listing_work(l, listed_members(base, l.waits_key).len() as int),
    ensures
        ({
            let w = l.waits_key;
            let members = listed_members(base, w);
            let (res, after) = run(l, step, keys, fuel);
            &&& res matches Some(Ok(OutcomeView::Keys(ks))) && forall|i: int|
                0 <= i < ks.len() ==> members_at(base, w).contains(#[trigger] ks[i])
            &&& holds_no_text(after, w)
            &&& forall|j: int|
                0 <= j < members.len() ==> (members_at(after, w).contains(#[trigger] members[j]) <==> answers(
                    base,
                    ns,
                    members[j],
                    ctx,
                    user,
                ))
            &&& forall|x: Seq<char>| #[trigger] members_at(after, w).contains(x) ==> members_at(base, w).contains(x)
        }),
    decreases fuel,
{
    match step {
        StepView::Finish(_) => {},
        StepView::Issue(cmd) => {
            lemma_list_exact_step(l, cmd, keys, base, ns, ctx, user);
            let (reply, keys2) = perform(keys, cmd);
            let (l2, step2) = l.next(reply);
            lemma_list_exact_run(l2, step2, keys2, base, ns, ctx, user, (fuel - 1) as nat);
        },
    }
}

/// The members of the user's wait set whose stored sessions belong to the
/// caller.
pub open spec fn answering_waits(keys: Keyspace, ns: Seq<char>, ctx: TenantView, user: Seq<char>) -> Set<Seq<char>> {
    members_at(keys, user_waits_key(ns, ctx, user)).filter(|k: Seq<char>| answers(keys, ns, k, ctx, user))
}

/// A listing of a user's waits over a readable wait set succeeds. It
/// returns, each once, exactly the members whose stored sessions belong to
/// the caller; the wait set is left holding exactly those, and every other
/// key is as it was.
pub proof fn law_listing_returns_and_keeps_answering_waits(
    ns: Seq<char>,
    ctx: TenantView,
    user: Seq<char>,
    keys: Keyspace,
    fuel: nat,
)
    requires
        readable_waits(keys, ns, user_waits_key(ns, ctx, user)),
        fuel >= 2 + 3 * members_at(keys, user_waits_key(ns, ctx, user)).len(),
    ensures
        ({
            let w = user_waits_key(ns, ctx, user);
            let kept = answering_waits(keys, ns, ctx, user);
            let (res, after) = list_run(ns, ctx, user, keys, fuel);
            &&& res matches Some(Ok(OutcomeView::Keys(ks))) && ks.no_duplicates() && ks.to_set() == kept
            &&& members_at(after, w) == kept
            &&& holds_no_text(after, w)
            &&& agree_except(after, keys, w)
        }),
{
    let w = user_waits_key(ns, ctx, user);
    let kept = answering_waits(keys, ns, ctx, user);
    let members = listed_members(keys, w);
    let l0 = ListWaitsForUserView::initial(ns, ctx, user);
    let s0 = StepView::Issue(CommandView::Connect);
    if keys.contains_key(w) && keys[w] is Members {
        lemma_to_seq_once(keys[w]->Members_0);
    }
    assert(members.len() == members_at(keys, w).len());
    assert(agree_except(keys, keys, w));
    lemma_list_exact_run(l0, s0, keys, keys, ns, ctx, user, fuel);
    lemma_list_complete_run(l0, s0, keys, keys, ns, ctx, user, fuel);
    lemma_list_run(l0, s0, keys, keys, ns, ctx, user, fuel);
    let (res, after) = list_run(ns, ctx, user, keys, fuel);
    assert forall|x: Seq<char>| members_at(after, w).contains(x) <==> kept.contains(x) by {
        if members_at(keys, w).contains(x) {
            assert(members.contains(x));
            let j = choose|j: int| 0 <= j < members.len() && members[j] == x;
            assert(members_at(after, w).contains(members[j]) <==> answers(keys, ns, members[j], ctx, user));
        }
    }
    assert(members_at(after, w) =~= kept);
    if let Some(Ok(OutcomeView::Keys(ks))) = res {
        assert forall|x: Seq<char>| ks.to_set().contains(x) <==> kept.contains(x) by {
            if ks.contains(x) {
                let i = choose|i: int| 0 <= i < ks.len() && ks[i] == x;
                assert(answers(keys, ns, ks[i], ctx, user));
                assert(members_at(keys, w).contains(x));
            }
            if kept.contains(x) {
                assert(members.contains(x));
                let j = choose|j: int| 0 <= j < members.len() && members[j] == x;
                assert(answers(keys, ns, members[j], ctx, user));
            }
        }
        assert(ks.to_set() =~= kept);
    }
}

/// A session whose entry is gone is listed among no one's waits, whatever
/// calls came before: a listing answers only with sessions that are stored.
pub proof fn law_absent_session_is_not_listed(
    ns: Seq<char>,
    key: Seq<char>,
    keys: Keyspace,
    ctx: TenantView,
    user: Seq<char>,
    fuel: nat,
)
    requires
        !keys.contains_key(session_entry_key(ns, key)),
    ensures
        list_run(ns, ctx, user, keys, fuel).0 matches Some(Ok(OutcomeView::Keys(ks))) ==> !ks.contains(key),
{
    law_listed_waits_belong_to_caller(ns, ctx, user, keys, fuel);
    if let Some(Ok(OutcomeView::Keys(ks))) = list_run(ns, ctx, user, keys, fuel).0 {
        if ks.contains(key) {
            let i = choose|i: int| 0 <= i < ks.len() && ks[i] == key;
            assert(answers(keys, ns, ks[i], ctx, user));
        }
    }
}

/// A wait just registered over a readable wait set is listed: given enough
/// commands the listing succeeds and returns the session, once.
pub proof fn law_registered_wait_is_listed(
    ns: Seq<char>,
    ctx: TenantView,
    user: Seq<char>,
    hash: Seq<char>,
    session_key: Seq<char>,
    data: SessionRecordView,
    ttl_ms: Option<u128>,
    payload: Seq<char>,
    keys: Keyspace,
    fuel: nat,
)
    requires
        alignment_failure(ctx, data.tenant_ctx) is None,
        wait_user_failure(ctx, user, data.tenant_ctx) is None,
        round_trips(data, payload),
        holds_no_set(keys, scope_wait_key(ns, ctx, user, hash)),
        readable_waits(keys, ns, user_waits_key(ns, ctx, user)),
        fuel >= 5 + 3 * members_at(keys, user_waits_key(ns, ctx, user)).len(),
    ensures
        ({
            let (registered, after) = register_run(ns, ctx, user, hash, session_key, ttl_ms, data, keys);
            &&& registered == Some(Ok::<OutcomeView, SessionErrorView>(OutcomeView::Unit))
            &&& list_run(ns, ctx, user, after, fuel).0 matches Some(Ok(OutcomeView::Keys(ks))) && ks.contains(
                session_key,
            ) && ks.no_duplicates()
        }),
{
    let w = user_waits_key(ns, ctx, user);
    let scope = scope_wait_key(ns, ctx, user, hash);
    let entry = session_entry_key(ns, session_key);
    lemma_register_effect(ns, ctx, user, hash, session_key, ttl_ms, data, payload, keys);
    lemma_key_kinds_disjoint(ns, session_key, ctx, user, ctx, user, hash);
    let after = register_run(ns, ctx, user, hash, session_key, ttl_ms, data, keys).1;
    let old = members_at(keys, w);
    let now = members_at(after, w);
    assert(now == registered_waits(keys, w, scope, session_key));
    assert(now.subset_of(old.insert(session_key)));
    assert(old.finite());
    vstd::set_lib::lemma_len_subset(now, old.insert(session_key));
    assert forall|k: Seq<char>| #[trigger] now.contains(k) implies entry_readable(after, ns, k) by {
        if k != session_key {
            assert(old.contains(k));
            lemma_key_kinds_disjoint(ns, k, ctx, user, ctx, user, hash);
            lemma_session_entry_key_injective(ns, k, session_key);
            assert(entry_readable(keys, ns, k));
        }
    }
    assert(readable_waits(after, ns, w));
    assert(answers(after, ns, session_key, ctx, user));
    law_listing_returns_and_keeps_answering_waits(ns, ctx, user, after, fuel);
    let kept = answering_waits(after, ns, ctx, user);
    assert(kept.contains(session_key));
    if let Some(Ok(OutcomeView::Keys(ks))) = list_run(ns, ctx, user, after, fuel).0 {
        assert(ks.to_set().contains(session_key));
    }
}

/// Clearing the wait of a scope deletes the session the scope named and the
/// scope key, and takes that one session out of the user's wait set: every
/// other member stays, and every other key is as it was. A scope that names
/// nothing leaves the keyspace as it was.
pub proof fn law_clear_untracks_only_the_cleared_session(
    ns: Seq<char>,
    ctx: TenantView,
    user: Seq<char>,
    hash: Seq<char>,
    keys: Keyspace,
)
    requires
        holds_no_set(keys, scope_wait_key(ns, ctx, user, hash)),
        holds_no_text(keys, user_waits_key(ns, ctx, user)),
    ensures
        ({
            let scope = scope_wait_key(ns, ctx, user, hash);
            let waits = user_waits_key(ns, ctx, user);
            let (cleared, after) = clear_run(ns, ctx, user, hash, keys);
            &&& cleared == Some(Ok::<OutcomeView, SessionErrorView>(OutcomeView::Unit))
            &&& match text_at(keys, scope) {
                Some(raw) => {
                    &&& members_at(after, waits) == members_at(keys, waits).remove(raw)
                    &&& holds_no_text(after, waits)
                    &&& !after.contains_key(scope)
                    &&& !after.contains_key(session_entry_key(ns, raw))
                    &&& forall|k: Seq<char>|
                        k != scope && k != waits && k != session_entry_key(ns, raw) ==> (#[trigger] after.contains_key(k)
                            <==> keys.contains_key(k)) && (after.contains_key(k) ==> after[k] == keys[k])
                },
                None => after == keys,
            }
        }),
{
    let scope = scope_wait_key(ns, ctx, user, hash);
    let waits = user_waits_key(ns, ctx, user);
    if keys.contains_key(scope) {
        let raw = keys[scope]->Text_0;
        lemma_key_kinds_disjoint(ns, raw, ctx, user, ctx, user, hash);
        reveal_with_fuel(run, 6);
        let after = clear_run(ns, ctx, user, hash, keys).1;
        if keys.contains_key(waits) {
            assert(members_at(after, waits) =~= members_at(keys, waits).remove(raw));
        } else {
            assert(members_at(after, waits) =~= members_at(keys, waits).remove(raw));
        }
    } else {
        reveal_with_fuel(run, 6);
    }
}

/// Removing a stored session deletes its entry and takes that one session
/// out of the wait set of the user it was stored for (the shared-schema
/// user when set, else the legacy one): every other member stays, and every
/// other key is as it was.
pub proof fn law_remove_untracks_only_the_removed_session(
    ns: Seq<char>,
    key: Seq<char>,
    data: SessionRecordView,
    payload: Seq<char>,
    u: Seq<char>,
    keys: Keyspace,
)
    requires
        keys.contains_key(session_entry_key(ns, key)),
        keys[session_entry_key(ns, key)] == Stored::Text(payload),
        decoded_session(payload) == Some(data),
        (if data.tenant_ctx.user_id is Some { data.tenant_ctx.user_id } else { data.tenant_ctx.user }) == Some(u),
        holds_no_text(keys, user_waits_key(ns, data.tenant_ctx, u)),
    ensures
        ({
            let entry = session_entry_key(ns, key);
            let waits = user_waits_key(ns, data.tenant_ctx, u);
            let (removed, after) = remove_run(ns, key, keys);
            &&& removed == Some(Ok::<OutcomeView, SessionErrorView>(OutcomeView::Unit))
            &&& !after.contains_key(entry)
            &&& members_at(after, waits) == members_at(keys, waits).remove(key)
            &&& holds_no_text(after, waits)
            &&& forall|k: Seq<char>|
                k != entry && k != waits ==> (#[trigger] after.contains_key(k) <==> keys.contains_key(k)) && (
                after.contains_key(k) ==> after[k] == keys[k])
        }),
{
    let waits = user_waits_key(ns, data.tenant_ctx, u);
    lemma_key_kinds_disjoint(ns, key, data.tenant_ctx, u, data.tenant_ctx, u, Seq::empty());
    reveal_with_fuel(run, 5);
    let after = remove_run(ns, key, keys).1;
    assert(members_at(after, waits) =~= members_at(keys, waits).remove(key));
}

/// A single-wait lookup that is loading a session answers, if it answers
/// with a session, with the key it is loading.
proof fn lemma_find_by_user_loading_key(f: FindByUserView, cmd: CommandView, keys: Keyspace, fuel: nat)
    requires
        f.phase is Loading,
    ensures
        run(f, StepView::Issue(cmd), keys, fuel).0 matches Some(Ok(OutcomeView::MaybeSession(Some((k, _)))))
            ==> k == f.key,
    decreases fuel,
{
    if fuel > 0 {
        lemma_run_step(f, cmd, keys, (fuel - 1) as nat);
        let (reply, keys2) = perform(keys, cmd);
        let (f2, s2) = f.next(reply);
        if let StepView::Issue(c2) = s2 {
            lemma_find_by_user_loading_key(f2, c2, keys2, (fuel - 1) as nat);
        }
    }
}

/// A single-wait lookup follows the listing it starts with: where the
/// listing returns no key it answers nothing, where it returns more than
/// one it fails with the "multiple waits" error, and it answers with a
/// session only where the listing returns exactly that session's key.
proof fn lemma_find_by_user_follows_listing(f: FindByUserView, cmd: CommandView, keys: Keyspace, fuel: nat)
    requires
        f.phase is Listing,
    ensures
        ({
            let listed = run(f.list, StepView::Issue(cmd), keys, fuel).0;
            let found = run(f, StepView::Issue(cmd), keys, fuel).0;
            &&& listed matches Some(Ok(OutcomeView::Keys(ks))) ==> (ks.len() == 0 ==> found == Some(
                Ok::<OutcomeView, SessionErrorView>(OutcomeView::MaybeSession(None)),
            ))
            &&& listed matches Some(Ok(OutcomeView::Keys(ks))) ==> (ks.len() > 1 ==> found == Some(
                Err::<OutcomeView, SessionErrorView>(
                    SessionErrorView { code: crate::error::ErrorCode::InvalidInput, message: multiple_waits_message() },
                ),
            ))
            &&& found matches Some(Ok(OutcomeView::MaybeSession(Some((k, _))))) ==> listed == Some(
                Ok::<OutcomeView, SessionErrorView>(OutcomeView::Keys(seq![k])),
            )
        }),
    decreases fuel,
{
    if fuel > 0 {
        lemma_run_step(f, cmd, keys, (fuel - 1) as nat);
        lemma_run_step(f.list, cmd, keys, (fuel - 1) as nat);
        let (reply, keys2) = perform(keys, cmd);
        let (l2, ls2) = f.list.next(reply);
        let (f2, s2) = f.next(reply);
        match ls2 {
            StepView::Issue(c2) => {
                lemma_find_by_user_follows_listing(f2, c2, keys2, (fuel - 1) as nat);
            },
            StepView::Finish(Ok(OutcomeView::Keys(ks))) => {
                if ks.len() == 1 {
                    lemma_find_by_user_loading_key(f2, CommandView::Connect, keys2, (fuel - 1) as nat);
                    assert(ks =~= seq![ks[0]]);
                }
            },
            _ => {},
        }
    }
}

/// A lookup of a user's single wait agrees with a listing of the user's
/// waits on the same keys: no listed key, no answer; more than one listed
/// key, the "multiple waits" error; and a session only where the listing
/// gives exactly that session's key.
pub proof fn law_find_by_user_needs_exactly_one_wait(
    ns: Seq<char>,
    ctx: TenantView,
    user: Seq<char>,
    keys: Keyspace,
    fuel: nat,
)
    ensures
        ({
            let listed = list_run(ns, ctx, user, keys, fuel).0;
            let found = find_by_user_run(ns, ctx, user, keys, fuel).0;
            &&& listed matches Some(Ok(OutcomeView::Keys(ks))) ==> (ks.len() == 0 ==> found == Some(
                Ok::<OutcomeView, SessionErrorView>(OutcomeView::MaybeSession(None)),
            ))
            &&& listed matches Some(Ok(OutcomeView::Keys(ks))) ==> (ks.len() > 1 ==> found == Some(
                Err::<OutcomeView, SessionErrorView>(
                    SessionErrorView {
                        code: crate::error::ErrorCode::InvalidInput,
                        message: "multiple waits exist for user; use scope-based routing instead"@,
                    },
                ),
            ))
            &&& found matches Some(Ok(OutcomeView::MaybeSession(Some((k, _))))) ==> listed == Some(
                Ok::<OutcomeView, SessionErrorView>(OutcomeView::Keys(seq![k])),
            )
        }),
{
    reveal_strlit("multiple waits exist for user; use scope-based routing instead");
    lemma_find_by_user_follows_listing(
        FindByUserView::initial(ns, ctx, user),
        CommandView::Connect,
        keys,
        fuel,
    );
}

/// The expiry, in milliseconds, of each key that has one.
pub type Expiries = Map<Seq<char>, i64>;

/// The expiries after `cmd` on `keys`, as Redis keeps them: a `SET` drops
/// the key's expiry, a `PEXPIRE` sets it on a key that exists, and a key
/// that is gone has none.
pub open spec fn expire_after(keys: Keyspace, exp: Expiries, cmd: CommandView) -> Expiries {
    let keys2 = perform(keys, cmd).1;
    let e = match cmd {
        CommandView::Put { key, .. } => exp.remove(key),
        CommandView::ExpireAfter { key, millis } => if keys.contains_key(key) {
            exp.insert(key, millis)
        } else {
            exp
        },
        _ => exp,
    };
    e.restrict(keys2.dom())
}

/// Runs machine `m` as `run` does, keeping track of expiries as well.
pub open spec fn run_timed<M: Machine>(m: M, step: StepView, keys: Keyspace, exp: Expiries, fuel: nat) -> (
    Option<Result<OutcomeView, SessionErrorView>>,
    Keyspace,
    Expiries,
)
    decreases fuel,
{
    match step {
        StepView::Finish(res) => (Some(res), keys, exp),
        StepView::Issue(cmd) => if fuel == 0 {
            (None, keys, exp)
        } else {
            let (reply, keys2) = perform(keys, cmd);
            let (m2, step2) = m.advance_on(reply);
            run_timed(m2, step2, keys2, expire_after(keys, exp, cmd), (fuel - 1) as nat)
        },
    }
}

/// Registering a wait with a time-to-live leaves both the session's entry
/// and the scope key expiring after that time (clamped to at least one
/// millisecond and at most `i64::MAX`); without one, neither key keeps an
/// expiry.
pub proof fn law_register_sets_expiries(
    ns: Seq<char>,
    ctx: TenantView,
    user: Seq<char>,
    hash: Seq<char>,
    session_key: Seq<char>,
    ttl_ms: Option<u128>,
    data: SessionRecordView,
    keys: Keyspace,
    exp: Expiries,
)
    requires
        holds_no_set(keys, scope_wait_key(ns, ctx, user, hash)),
        holds_no_text(keys, user_waits_key(ns, ctx, user)),
    ensures
        ({
            let entry = session_entry_key(ns, session_key);
            let scope = scope_wait_key(ns, ctx, user, hash);
            let (registered, _, exp2) = run_timed(
                RegisterWaitView::initial(ns, ctx, user, hash, session_key, ttl_ms, data),
                StepView::Issue(CommandView::Connect),
                keys,
                exp,
                8,
            );
            &&& registered == Some(Ok::<OutcomeView, SessionErrorView>(OutcomeView::Unit))
            &&& match ttl_ms {
                Some(t) => {
                    let ms: i64 = if t == 0 {
                        1
                    } else if t > i64::MAX {
                        i64::MAX
                    } else {
                        t as i64
                    };
                    &&& exp2.contains_key(entry) && exp2[entry] == ms
                    &&& exp2.contains_key(scope) && exp2[scope] == ms
                },
                None => !exp2.contains_key(entry) && !exp2.contains_key(scope),
            }
        }),
{
    lemma_key_kinds_disjoint(ns, session_key, ctx, user, ctx, user, hash);
    if let Some(t) = ttl_ms {
        crate::protocol::lemma_ttl_clamp(t);
    }
    reveal_with_fuel(run_timed, 9);
}

} // verus!
