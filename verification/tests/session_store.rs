use std::collections::{BTreeSet, HashMap};

use greentic_session::data::{Impersonation, SessionCursor, SessionRecord, TenantDetails};
use greentic_session::error::{ErrorCode, SessionError};
use greentic_session::protocol::{apply_ttl, Command, Outcome, Reply, Step};
use greentic_session::scope::ReplyScope;
use greentic_session::session_ops::{CreateSession, GetSession, RemoveSession, UpdateSession};
use greentic_session::store::RedisSessionStore;
use greentic_session::tenant::{
    ctx_mismatch, ensure_alignment, ensure_ctx_preserved, ensure_user_matches, TenantCtx,
};
use greentic_session::wait_ops::{
    ClearWait, FindByUser, FindWaitByScope, ListWaitsForUser, RegisterWait,
};
use greentic_session::{create_session_store, SessionBackend, SessionBackendConfig};

// ---------------------------------------------------------------------------
// Helpers: contexts, a keyspace that performs commands, and a payload codec.
// ---------------------------------------------------------------------------

fn ctx(env: &str, tenant: &str, team: Option<&str>, user: Option<&str>) -> TenantCtx {
    TenantCtx::new(
        env.to_string(),
        tenant.to_string(),
        team.map(|t| t.to_string()),
        team.map(|t| t.to_string()),
        user.map(|u| u.to_string()),
        user.map(|u| u.to_string()),
    )
}

fn scope(conversation: &str) -> ReplyScope {
    ReplyScope::new(conversation.to_string(), None, None, None)
}

enum Val {
    Text(String),
    Members(BTreeSet<String>),
}

#[derive(Default)]
struct Keyspace {
    keys: HashMap<String, Val>,
    expiries: HashMap<String, i64>,
    connections: usize,
}

fn wrong_type() -> Reply {
    Reply::StoreFailed("WRONGTYPE".to_string())
}

/// The identity of a context as one text, for comparisons.
fn ident(c: &TenantCtx) -> String {
    format!("{}|{}|{:?}|{:?}|{:?}|{:?}", c.env, c.tenant_id, c.team, c.team_id, c.user, c.user_id)
}

fn details() -> TenantDetails {
    TenantDetails {
        tenant: "acme".to_string(),
        session_id: None,
        flow_id: None,
        node_id: None,
        provider_id: None,
        trace_id: None,
        i18n_id: None,
        correlation_id: None,
        attributes: Vec::new(),
        deadline_unix_millis: None,
        attempt: 0,
        idempotency_key: None,
        impersonation: None,
    }
}

/// A session record for a context, with a fixed flow and cursor.
fn record(c: &TenantCtx) -> SessionRecord {
    SessionRecord {
        tenant_ctx: c.duplicate(),
        tenant_details: details(),
        flow_id: "flow-1".to_string(),
        pack_id: None,
        cursor: SessionCursor { node_pointer: "node-1".to_string(), wait_reason: None, outbox_marker: None },
        context_json: "{}".to_string(),
    }
}

impl Keyspace {
    fn perform(&mut self, cmd: Command) -> Reply {
        match cmd {
            Command::Connect => {
                self.connections += 1;
                Reply::Connected
            }
            Command::Get { key } => match self.keys.get(&key) {
                None => Reply::Value(None),
                Some(Val::Text(v)) => Reply::Value(Some(v.clone())),
                Some(Val::Members(_)) => wrong_type(),
            },
            Command::Put { key, value } => {
                self.keys.insert(key, Val::Text(value));
                Reply::Done
            }
            Command::Delete { key } => {
                self.keys.remove(&key);
                Reply::Done
            }
            Command::AddMember { key, member } => match self.keys.get_mut(&key) {
                None => {
                    let mut s = BTreeSet::new();
                    s.insert(member);
                    self.keys.insert(key, Val::Members(s));
                    Reply::Done
                }
                Some(Val::Members(s)) => {
                    s.insert(member);
                    Reply::Done
                }
                Some(Val::Text(_)) => wrong_type(),
            },
            Command::RemoveMember { key, member } => {
                let empty = match self.keys.get_mut(&key) {
                    None => false,
                    Some(Val::Members(s)) => {
                        s.remove(&member);
                        s.is_empty()
                    }
                    Some(Val::Text(_)) => return wrong_type(),
                };
                if empty {
                    self.keys.remove(&key);
                }
                Reply::Done
            }
            Command::ListMembers { key } => match self.keys.get(&key) {
                None => Reply::Members(Vec::new()),
                Some(Val::Members(s)) => Reply::Members(s.iter().cloned().collect()),
                Some(Val::Text(_)) => wrong_type(),
            },
            Command::ExpireAfter { key, millis } => {
                self.expiries.insert(key, millis);
                Reply::Done
            }
        }
    }

    fn text(&self, key: &str) -> Option<String> {
        match self.keys.get(key) {
            Some(Val::Text(v)) => Some(v.clone()),
            _ => None,
        }
    }

    fn members(&self, key: &str) -> Vec<String> {
        match self.keys.get(key) {
            Some(Val::Members(s)) => s.iter().cloned().collect(),
            _ => Vec::new(),
        }
    }
}

/// Runs a machine against the keyspace until it finishes.
fn drive(kv: &mut Keyspace, first: Step, mut step: impl FnMut(Reply) -> Step) -> Result<Outcome, SessionError> {
    let mut pending = first;
    for _ in 0..1000 {
        match pending {
            Step::Finish(r) => return r,
            Step::Issue(cmd) => {
                let reply = kv.perform(cmd);
                pending = step(reply);
            }
        }
    }
    panic!("machine did not finish");
}

fn store() -> RedisSessionStore {
    RedisSessionStore::from_url_with_namespace("redis://127.0.0.1:6379", "ns".to_string())
        .expect("a plain redis URL is accepted")
}

fn create(kv: &mut Keyspace, s: &RedisSessionStore, caller: &TenantCtx, data: &TenantCtx) -> Result<Outcome, SessionError> {
    let (mut m, first) = CreateSession::begin(s, caller, &record(data));
    drive(kv, first, |r| m.step(r))
}

fn get(kv: &mut Keyspace, s: &RedisSessionStore, key: &str) -> Result<Outcome, SessionError> {
    let (mut m, first) = GetSession::begin(s, key);
    drive(kv, first, |r| m.step(r))
}

fn register(
    kv: &mut Keyspace,
    s: &RedisSessionStore,
    caller: &TenantCtx,
    user: &str,
    sc: &ReplyScope,
    key: &str,
    data: &TenantCtx,
    ttl: Option<u128>,
) -> Result<Outcome, SessionError> {
    let (mut m, first) = RegisterWait::begin(s, caller, &user.to_string(), sc, key, record(data), ttl);
    drive(kv, first, |r| m.step(r))
}

fn find(kv: &mut Keyspace, s: &RedisSessionStore, caller: &TenantCtx, user: &str, sc: &ReplyScope) -> Result<Outcome, SessionError> {
    let (mut m, first) = FindWaitByScope::begin(s, caller, &user.to_string(), sc);
    drive(kv, first, |r| m.step(r))
}

fn list(kv: &mut Keyspace, s: &RedisSessionStore, caller: &TenantCtx, user: &str) -> Result<Outcome, SessionError> {
    let (mut m, first) = ListWaitsForUser::begin(s, caller, &user.to_string());
    drive(kv, first, |r| m.step(r))
}

fn key_of(o: Outcome) -> String {
    match o {
        Outcome::Key(k) => k,
        other => panic!("expected a key, got {other:?}"),
    }
}

fn maybe_key(o: Outcome) -> Option<String> {
    match o {
        Outcome::MaybeKey(k) => k,
        other => panic!("expected an optional key, got {other:?}"),
    }
}

// ---------------------------------------------------------------------------
// Tenant-context rules
// ---------------------------------------------------------------------------

#[test]
fn same_context_is_aligned_and_preserved() {
    let c = ctx("dev", "acme", Some("ops"), Some("alice"));
    assert!(ensure_alignment(&c, &c).is_ok());
    assert!(ensure_ctx_preserved(&c, &c).is_ok());
}

#[test]
fn env_mismatch_message_names_both_contexts() {
    let stored = ctx("dev", "acme", Some("ops"), Some("alice"));
    let caller = ctx("prod", "acme", None, None);
    let err = ensure_alignment(&caller, &stored).unwrap_err();
    assert_eq!(err.code, ErrorCode::InvalidInput);
    assert_eq!(
        err.message,
        "tenant context mismatch (env/tenant must match): expected env=dev, tenant=acme, team=ops, user=present, got env=prod, tenant=acme, team=-, user=missing"
    );
}

#[test]
fn alignment_reasons_in_order() {
    let stored = ctx("dev", "acme", Some("ops"), Some("alice"));
    let e = ensure_alignment(&ctx("dev", "acme", Some("sales"), Some("alice")), &stored).unwrap_err();
    assert!(e.message.starts_with("tenant context mismatch (team must match)"));
    let e = ensure_alignment(&ctx("dev", "acme", Some("ops"), None), &stored).unwrap_err();
    assert!(e.message.starts_with("tenant context mismatch (user required by session but missing in caller context)"));
    let e = ensure_alignment(&ctx("dev", "acme", Some("ops"), Some("bob")), &stored).unwrap_err();
    assert!(e.message.starts_with("tenant context mismatch (user must match stored session)"));
    // a session without a user accepts any caller user
    let open = ctx("dev", "acme", Some("ops"), None);
    assert!(ensure_alignment(&ctx("dev", "acme", Some("ops"), Some("bob")), &open).is_ok());
}

#[test]
fn shared_schema_fields_win_over_legacy_ones() {
    let mut stored = ctx("dev", "acme", None, None);
    stored.team = Some("legacy".to_string());
    stored.team_id = Some("ops".to_string());
    let caller = ctx("dev", "acme", Some("ops"), None);
    assert!(ensure_alignment(&caller, &stored).is_ok());
    let mut legacy_only = ctx("dev", "acme", None, None);
    legacy_only.team = Some("ops".to_string());
    assert!(ensure_alignment(&caller, &legacy_only).is_ok());
}

#[test]
fn preservation_reasons() {
    let with_user = ctx("dev", "acme", None, Some("alice"));
    let without_user = ctx("dev", "acme", None, None);
    let e = ensure_ctx_preserved(&without_user, &with_user).unwrap_err();
    assert!(e.message.starts_with("tenant context mismatch (user cannot be introduced when none was stored)"));
    let e = ensure_ctx_preserved(&with_user, &without_user).unwrap_err();
    assert!(e.message.starts_with("tenant context mismatch (user cannot change for an existing session)"));
    let e = ensure_ctx_preserved(&with_user, &ctx("dev", "acme", None, Some("bob"))).unwrap_err();
    assert!(e.message.starts_with("tenant context mismatch (user cannot change for an existing session)"));
    let e = ensure_ctx_preserved(&with_user, &ctx("dev", "other", None, Some("alice"))).unwrap_err();
    assert!(e.message.starts_with("tenant context mismatch (env/tenant cannot change for an existing session)"));
    let e = ensure_ctx_preserved(&with_user, &ctx("dev", "acme", Some("ops"), Some("alice"))).unwrap_err();
    assert!(e.message.starts_with("tenant context mismatch (team cannot change for an existing session)"));
}

#[test]
fn wait_user_rules() {
    let data = ctx("dev", "acme", None, Some("alice"));
    let alice = "alice".to_string();
    assert!(ensure_user_matches(&data, &alice, &data).is_ok());
    let e = ensure_user_matches(&ctx("dev", "acme", None, Some("bob")), &alice, &data).unwrap_err();
    assert_eq!(e.message, "user must match tenant context when registering a wait");
    let e = ensure_user_matches(&ctx("dev", "acme", None, None), &"bob".to_string(), &data).unwrap_err();
    assert_eq!(e.message, "user must match session data when registering a wait");
    let e = ensure_user_matches(&ctx("dev", "acme", None, None), &alice, &ctx("dev", "acme", None, None)).unwrap_err();
    assert_eq!(e.message, "user required by wait but missing in session data");
    assert_eq!(e.code, ErrorCode::InvalidInput);
}

#[test]
fn ctx_mismatch_with_reason() {
    let a = ctx("dev", "t1", None, None);
    let b = ctx("dev", "t2", Some("x"), Some("u"));
    let e = ctx_mismatch(&a, &b, "why");
    assert_eq!(
        e.message,
        "tenant context mismatch (why): expected env=dev, tenant=t1, team=-, user=missing, got env=dev, tenant=t2, team=x, user=present"
    );
}

// ---------------------------------------------------------------------------
// Keys, expiry, construction
// ---------------------------------------------------------------------------

#[test]
fn key_layout() {
    let s = store();
    assert_eq!(s.namespace(), "ns");
    assert_eq!(s.session_entry_key("k1"), "ns:session:k1");
    let c = ctx("dev", "acme", None, Some("alice"));
    assert_eq!(s.user_waits_key(&c, "alice"), "ns:waits:user:dev:acme:-:alice");
    let sc = ReplyScope::new(
        "chat-1".to_string(),
        Some("topic-9".to_string()),
        Some("msg-3".to_string()),
        Some("cid-7".to_string()),
    );
    assert_eq!(
        s.scope_wait_key(&ctx("dev", "acme", Some("ops"), None), "alice", &sc),
        "ns:waits:scope:dev:acme:ops:alice:5251e2c9eb975466809eecbe51be7aa8dc7785ad05cb393a8f47a3a2f42cc544"
    );
}

#[test]
fn scope_hash_depends_on_every_field() {
    let s = store();
    let c = ctx("dev", "acme", None, None);
    let base = ReplyScope::new("chat-1".to_string(), None, Some("msg-3".to_string()), None);
    let other = ReplyScope::new("chat-1".to_string(), None, Some("msg-4".to_string()), None);
    let k1 = s.scope_wait_key(&c, "u", &base);
    let k2 = s.scope_wait_key(&c, "u", &other);
    assert_ne!(k1, k2);
    assert_eq!(k1.len(), "ns:waits:scope:dev:acme:-:u:".len() + 64);
}

#[test]
fn ttl_is_clamped() {
    let key = "k".to_string();
    assert!(apply_ttl(&key, None).is_none());
    match apply_ttl(&key, Some(0)) {
        Some(Command::ExpireAfter { millis, .. }) => assert_eq!(millis, 1),
        other => panic!("{other:?}"),
    }
    match apply_ttl(&key, Some(1500)) {
        Some(Command::ExpireAfter { key, millis }) => {
            assert_eq!(millis, 1500);
            assert_eq!(key, "k");
        }
        other => panic!("{other:?}"),
    }
    match apply_ttl(&key, Some(u128::MAX)) {
        Some(Command::ExpireAfter { millis, .. }) => assert_eq!(millis, i64::MAX),
        other => panic!("{other:?}"),
    }
}

#[test]
fn from_url_uses_default_namespace() {
    let s = RedisSessionStore::from_url("redis://127.0.0.1/").expect("valid url");
    assert_eq!(s.namespace(), "greentic:session");
    assert_eq!(s.session_entry_key("abc"), "greentic:session:session:abc");
}

#[test]
fn from_url_rejects_non_redis_urls() {
    let e = RedisSessionStore::from_url("http://example.com").err().expect("not a redis url");
    assert_eq!(e.code, ErrorCode::Unavailable);
    assert!(RedisSessionStore::from_url("not a url at all").is_err());
    assert!(RedisSessionStore::from_url_with_namespace("ftp://x", "n".to_string()).is_err());
}

#[test]
fn create_session_store_selects_backend() {
    assert!(matches!(create_session_store(SessionBackendConfig::InMemory), Ok(SessionBackend::InMemory)));
    match create_session_store(SessionBackendConfig::RedisUrl("redis://localhost:6379".to_string())) {
        Ok(SessionBackend::Redis(s)) => assert_eq!(s.namespace(), "greentic:session"),
        _ => panic!("expected a redis store"),
    }
    match create_session_store(SessionBackendConfig::RedisUrlWithNamespace {
        url: "redis://localhost:6379/2".to_string(),
        namespace: "custom".to_string(),
    }) {
        Ok(SessionBackend::Redis(s)) => assert_eq!(s.namespace(), "custom"),
        _ => panic!("expected a redis store"),
    }
    let e = create_session_store(SessionBackendConfig::RedisUrl("mailto:x@y".to_string())).err().unwrap();
    assert_eq!(e.code, ErrorCode::Unavailable);
}

// ---------------------------------------------------------------------------
// Session operations against the keyspace
// ---------------------------------------------------------------------------

/// Writes `data` under session `key` through the create machine.
fn put_session(kv: &mut Keyspace, s: &RedisSessionStore, key: &str, data: &SessionRecord) {
    let (mut m, first) = CreateSession::with_key(s, key.to_string(), data);
    assert!(matches!(drive(kv, first, |r| m.step(r)).unwrap(), Outcome::Key(_)));
}

/// The stored payload of session `key`, parsed as the outside crate's type.
fn stored(kv: &Keyspace, key: &str) -> Option<greentic_types::SessionData> {
    kv.text(&format!("ns:session:{key}"))
        .map(|p| serde_json::from_str::<greentic_types::SessionData>(&p).expect("payload parses"))
}

fn read(kv: &mut Keyspace, s: &RedisSessionStore, key: &str) -> Option<SessionRecord> {
    match get(kv, s, key).unwrap() {
        Outcome::Session(c) => c,
        other => panic!("{other:?}"),
    }
}

#[test]
fn created_session_reads_back() {
    let s = store();
    let mut kv = Keyspace::default();
    let data = ctx("dev", "acme", Some("ops"), Some("alice"));
    let key = key_of(create(&mut kv, &s, &data, &data).unwrap());
    assert_eq!(key.len(), 36);
    assert_eq!(key.chars().filter(|c| *c == '-').count(), 4);
    let raw = stored(&kv, &key).unwrap();
    assert_eq!(raw.tenant_ctx.env.0, "dev");
    assert_eq!(raw.tenant_ctx.team_id.as_ref().map(|t| t.0.clone()), Some("ops".to_string()));
    assert_eq!(raw.flow_id.0, "flow-1");
    let back = read(&mut kv, &s, &key).unwrap();
    assert_eq!(ident(&back.tenant_ctx), ident(&data));
    assert_eq!(back.flow_id, "flow-1");
    assert_eq!(back.cursor.node_pointer, "node-1");
    assert_eq!(back.context_json, "{}");
    assert!(read(&mut kv, &s, "missing").is_none());
}

#[test]
fn created_key_is_a_version_four_uuid() {
    let s = store();
    let mut kv = Keyspace::default();
    let data = ctx("dev", "acme", None, None);
    let k1 = key_of(create(&mut kv, &s, &data, &data).unwrap());
    let k2 = key_of(create(&mut kv, &s, &data, &data).unwrap());
    for k in [&k1, &k2] {
        let b: Vec<char> = k.chars().collect();
        assert_eq!(b.len(), 36);
        for (i, c) in b.iter().enumerate() {
            if [8, 13, 18, 23].contains(&i) {
                assert_eq!(*c, '-');
            } else {
                assert!(c.is_ascii_hexdigit() && !c.is_ascii_uppercase());
            }
        }
        assert_eq!(b[14], '4');
        assert!(['8', '9', 'a', 'b'].contains(&b[19]));
    }
    assert_ne!(k1, k2);
}

#[test]
fn every_field_of_a_session_survives_the_store() {
    let s = store();
    let mut kv = Keyspace::default();
    let c = ctx("dev", "acme", Some("ops"), Some("alice"));
    let mut data = record(&c);
    data.pack_id = Some("pack-7".to_string());
    data.cursor.wait_reason = Some("awaiting reply".to_string());
    data.cursor.outbox_marker = Some("m-2".to_string());
    data.context_json = "{\"step\":3}".to_string();
    data.tenant_details.session_id = Some("sid".to_string());
    data.tenant_details.trace_id = Some("trace".to_string());
    data.tenant_details.attributes = vec![("a".to_string(), "1".to_string()), ("b".to_string(), "2".to_string())];
    data.tenant_details.deadline_unix_millis = Some(1_700_000_000_000);
    data.tenant_details.attempt = 3;
    data.tenant_details.impersonation = Some(Impersonation { actor_id: "admin".to_string(), reason: Some("support".to_string()) });
    put_session(&mut kv, &s, "k-full", &data);
    let back = read(&mut kv, &s, "k-full").unwrap();
    assert_eq!(format!("{back:?}"), format!("{data:?}"));
}

#[test]
fn an_unreadable_payload_is_an_internal_error() {
    let s = store();
    let mut kv = Keyspace::default();
    kv.perform(Command::Put { key: "ns:session:bad".to_string(), value: "garbage".to_string() });
    let e = get(&mut kv, &s, "bad").unwrap_err();
    assert_eq!(e.code, ErrorCode::Internal);
    assert!(!e.message.is_empty());
}

#[test]
fn stores_with_different_namespaces_do_not_share_sessions() {
    let s1 = store();
    let s2 = RedisSessionStore::from_url_with_namespace("redis://127.0.0.1:6379", "other".to_string()).unwrap();
    let mut kv = Keyspace::default();
    let data = ctx("dev", "acme", None, None);
    let key = key_of(create(&mut kv, &s1, &data, &data).unwrap());
    assert!(read(&mut kv, &s1, &key).is_some());
    assert!(read(&mut kv, &s2, &key).is_none());
}

#[test]
fn create_refuses_a_foreign_context_before_any_io() {
    let s = store();
    let data = ctx("dev", "acme", None, None);
    let (_, first) = CreateSession::begin(&s, &ctx("dev", "other", None, None), &record(&data));
    match first {
        Step::Finish(Err(e)) => {
            assert_eq!(e.code, ErrorCode::InvalidInput);
            assert!(e.message.starts_with("tenant context mismatch (env/tenant must match)"));
        }
        other => panic!("{other:?}"),
    }
}

#[test]
fn update_keeps_or_refuses_context() {
    let s = store();
    let mut kv = Keyspace::default();
    let data = ctx("dev", "acme", None, Some("alice"));
    let key = key_of(create(&mut kv, &s, &data, &data).unwrap());
    let before = kv.text(&format!("ns:session:{key}"));

    let foreign = ctx("dev", "other", None, Some("alice"));
    let (mut m, first) = UpdateSession::begin(&s, &key, record(&foreign));
    let e = drive(&mut kv, first, |r| m.step(r)).unwrap_err();
    assert!(e.message.starts_with("tenant context mismatch (env/tenant cannot change for an existing session)"));
    assert_eq!(kv.text(&format!("ns:session:{key}")), before);

    let mut same = ctx("dev", "acme", None, Some("alice"));
    same.user = None; // the shared-schema user still names alice
    let mut next = record(&same);
    next.cursor.node_pointer = "node-2".to_string();
    let (mut m, first) = UpdateSession::begin(&s, &key, next);
    assert!(matches!(drive(&mut kv, first, |r| m.step(r)).unwrap(), Outcome::Unit));
    let back = read(&mut kv, &s, &key).unwrap();
    assert_eq!(ident(&back.tenant_ctx), ident(&same));
    assert_eq!(back.cursor.node_pointer, "node-2");
}

#[test]
fn a_run_of_updates_keeps_the_identity() {
    let s = store();
    let mut kv = Keyspace::default();
    let data = ctx("dev", "acme", Some("ops"), Some("alice"));
    let key = key_of(create(&mut kv, &s, &data, &data).unwrap());
    let candidates = [
        ctx("dev", "acme", Some("ops"), Some("alice")),
        ctx("dev", "acme", Some("sales"), Some("alice")),
        ctx("dev", "acme", Some("ops"), Some("bob")),
        ctx("prod", "acme", Some("ops"), Some("alice")),
        ctx("dev", "acme", Some("ops"), Some("alice")),
    ];
    for c in candidates.iter() {
        let (mut m, first) = UpdateSession::begin(&s, &key, record(c));
        let _ = drive(&mut kv, first, |r| m.step(r));
        let back = read(&mut kv, &s, &key).unwrap();
        assert_eq!(back.tenant_ctx.env, "dev");
        assert_eq!(back.tenant_ctx.tenant_id, "acme");
        assert_eq!(back.tenant_ctx.team_id.as_deref(), Some("ops"));
        assert_eq!(back.tenant_ctx.user_id.as_deref(), Some("alice"));
    }
}

#[test]
fn update_and_remove_of_missing_session_are_not_found() {
    let s = store();
    let mut kv = Keyspace::default();
    let c = ctx("dev", "acme", None, None);
    let (mut m, first) = UpdateSession::begin(&s, "nope", record(&c));
    let e = drive(&mut kv, first, |r| m.step(r)).unwrap_err();
    assert_eq!(e.code, ErrorCode::NotFound);
    assert_eq!(e.message, "session not found: nope");
    let (mut m, first) = RemoveSession::begin(&s, "nope");
    let e = drive(&mut kv, first, |r| m.step(r)).unwrap_err();
    assert_eq!(e.code, ErrorCode::NotFound);
}

#[test]
fn removed_session_reads_as_absent_and_leaves_wait_set() {
    let s = store();
    let mut kv = Keyspace::default();
    let data = ctx("dev", "acme", None, Some("alice"));
    register(&mut kv, &s, &data, "alice", &scope("c1"), "sess-1", &data, None).unwrap();
    assert_eq!(kv.members("ns:waits:user:dev:acme:-:alice"), vec!["sess-1".to_string()]);
    let (mut m, first) = RemoveSession::begin(&s, "sess-1");
    assert!(matches!(drive(&mut kv, first, |r| m.step(r)).unwrap(), Outcome::Unit));
    assert!(read(&mut kv, &s, "sess-1").is_none());
    assert!(kv.members("ns:waits:user:dev:acme:-:alice").is_empty());
    match list(&mut kv, &s, &data, "alice").unwrap() {
        Outcome::Keys(ks) => assert!(ks.is_empty()),
        other => panic!("{other:?}"),
    }
}

#[test]
fn registered_wait_is_found_and_cleared() {
    let s = store();
    let mut kv = Keyspace::default();
    let data = ctx("dev", "acme", Some("ops"), Some("alice"));
    let sc = scope("chat-1");
    assert!(matches!(
        register(&mut kv, &s, &data, "alice", &sc, "sess-1", &data, Some(30_000)).unwrap(),
        Outcome::Unit
    ));
    assert_eq!(kv.expiries.get("ns:session:sess-1"), Some(&30_000));
    assert_eq!(maybe_key(find(&mut kv, &s, &data, "alice", &sc).unwrap()), Some("sess-1".to_string()));
    // another scope finds nothing
    assert_eq!(maybe_key(find(&mut kv, &s, &data, "alice", &scope("chat-2")).unwrap()), None);

    let (mut m, first) = ClearWait::begin(&s, &data, &"alice".to_string(), &sc);
    assert!(matches!(drive(&mut kv, first, |r| m.step(r)).unwrap(), Outcome::Unit));
    assert_eq!(maybe_key(find(&mut kv, &s, &data, "alice", &sc).unwrap()), None);
    assert!(read(&mut kv, &s, "sess-1").is_none());
    assert!(kv.members("ns:waits:user:dev:acme:ops:alice").is_empty());
}

#[test]
fn clearing_twice_is_clearing_once() {
    let s = store();
    let mut kv = Keyspace::default();
    let data = ctx("dev", "acme", None, Some("alice"));
    let sc = scope("chat-1");
    register(&mut kv, &s, &data, "alice", &sc, "sess-1", &data, None).unwrap();
    let (mut m, first) = ClearWait::begin(&s, &data, &"alice".to_string(), &sc);
    assert!(matches!(drive(&mut kv, first, |r| m.step(r)).unwrap(), Outcome::Unit));
    let after_one = kv.keys.len();
    let (mut m, first) = ClearWait::begin(&s, &data, &"alice".to_string(), &sc);
    assert!(matches!(drive(&mut kv, first, |r| m.step(r)).unwrap(), Outcome::Unit));
    assert_eq!(kv.keys.len(), after_one);
    assert_eq!(after_one, 0);
}

#[test]
fn a_repeated_scope_lookup_answers_the_same() {
    let s = store();
    let mut kv = Keyspace::default();
    let data = ctx("dev", "acme", None, Some("alice"));
    let sc = scope("chat-1");
    register(&mut kv, &s, &data, "alice", &sc, "sess-1", &data, None).unwrap();
    let first = maybe_key(find(&mut kv, &s, &data, "alice", &sc).unwrap());
    let before = kv.keys.len();
    let second = maybe_key(find(&mut kv, &s, &data, "alice", &sc).unwrap());
    assert_eq!(first, second);
    assert_eq!(first, Some("sess-1".to_string()));
    assert_eq!(kv.keys.len(), before);
}

#[test]
fn register_checks_users() {
    let s = store();
    let mut kv = Keyspace::default();
    let data = ctx("dev", "acme", None, Some("alice"));
    let e = register(&mut kv, &s, &data, "bob", &scope("c"), "k", &data, None).unwrap_err();
    assert_eq!(e.message, "user must match tenant context when registering a wait");
    let e = register(&mut kv, &s, &ctx("dev", "prod", None, None), "alice", &scope("c"), "k", &data, None).unwrap_err();
    assert!(e.message.starts_with("tenant context mismatch (env/tenant must match)"));
    assert!(kv.keys.is_empty());
    assert_eq!(kv.connections, 0);
}

#[test]
fn registering_again_replaces_the_previous_wait() {
    let s = store();
    let mut kv = Keyspace::default();
    let data = ctx("dev", "acme", None, Some("alice"));
    let sc = scope("chat-1");
    register(&mut kv, &s, &data, "alice", &sc, "first", &data, None).unwrap();
    register(&mut kv, &s, &data, "alice", &sc, "second", &data, None).unwrap();
    assert_eq!(kv.members("ns:waits:user:dev:acme:-:alice"), vec!["second".to_string()]);
    assert_eq!(maybe_key(find(&mut kv, &s, &data, "alice", &sc).unwrap()), Some("second".to_string()));
    match list(&mut kv, &s, &data, "alice").unwrap() {
        Outcome::Keys(ks) => assert_eq!(ks, vec!["second".to_string()]),
        other => panic!("{other:?}"),
    }
}

#[test]
fn stale_scope_is_dropped() {
    let s = store();
    let mut kv = Keyspace::default();
    let data = ctx("dev", "acme", None, Some("alice"));
    let sc = scope("chat-1");
    register(&mut kv, &s, &data, "alice", &sc, "sess-1", &data, None).unwrap();
    kv.keys.remove("ns:session:sess-1");
    assert_eq!(maybe_key(find(&mut kv, &s, &data, "alice", &sc).unwrap()), None);
    let scope_key = s.scope_wait_key(&data, "alice", &sc);
    assert!(kv.text(&scope_key).is_none());
    assert!(kv.members("ns:waits:user:dev:acme:-:alice").is_empty());
}

#[test]
fn listing_drops_foreign_and_missing_sessions() {
    let s = store();
    let mut kv = Keyspace::default();
    let alice = ctx("dev", "acme", None, Some("alice"));
    register(&mut kv, &s, &alice, "alice", &scope("a"), "k-a", &alice, None).unwrap();
    register(&mut kv, &s, &alice, "alice", &scope("b"), "k-b", &alice, None).unwrap();
    let waits = "ns:waits:user:dev:acme:-:alice".to_string();
    // a stray member whose session is gone, and one stored for another user
    kv.perform(Command::AddMember { key: waits.clone(), member: "k-gone".to_string() });
    let bob = ctx("dev", "acme", None, Some("bob"));
    put_session(&mut kv, &s, "k-bob", &record(&bob));
    kv.perform(Command::AddMember { key: waits.clone(), member: "k-bob".to_string() });
    match list(&mut kv, &s, &alice, "alice").unwrap() {
        Outcome::Keys(ks) => assert_eq!(ks, vec!["k-a".to_string(), "k-b".to_string()]),
        other => panic!("{other:?}"),
    }
    assert_eq!(kv.members(&waits), vec!["k-a".to_string(), "k-b".to_string()]);
}

#[test]
fn find_by_user_needs_exactly_one_wait() {
    let s = store();
    let mut kv = Keyspace::default();
    let data = ctx("dev", "acme", None, Some("alice"));
    let user = "alice".to_string();
    let (mut m, first) = FindByUser::begin(&s, &data, &user);
    assert!(matches!(drive(&mut kv, first, |r| m.step(r)).unwrap(), Outcome::MaybeSession(None)));

    register(&mut kv, &s, &data, "alice", &scope("a"), "k-a", &data, None).unwrap();
    let (mut m, first) = FindByUser::begin(&s, &data, &user);
    match drive(&mut kv, first, |r| m.step(r)).unwrap() {
        Outcome::MaybeSession(Some((k, c))) => {
            assert_eq!(k, "k-a");
            assert_eq!(ident(&c.tenant_ctx), ident(&data));
            assert_eq!(c.flow_id, "flow-1");
        }
        other => panic!("{other:?}"),
    }

    register(&mut kv, &s, &data, "alice", &scope("b"), "k-b", &data, None).unwrap();
    let (mut m, first) = FindByUser::begin(&s, &data, &user);
    let e = drive(&mut kv, first, |r| m.step(r)).unwrap_err();
    assert_eq!(e.code, ErrorCode::InvalidInput);
    assert_eq!(e.message, "multiple waits exist for user; use scope-based routing instead");
}

#[test]
fn failures_and_misuse_finish_with_errors() {
    let s = store();
    let (mut m, _) = GetSession::begin(&s, "k");
    match m.step(Reply::StoreFailed("connection refused".to_string())) {
        Step::Finish(Err(e)) => {
            assert_eq!(e.code, ErrorCode::Unavailable);
            assert_eq!(e.message, "connection refused");
        }
        other => panic!("{other:?}"),
    }
    match m.step(Reply::Connected) {
        Step::Finish(Err(e)) => assert_eq!(e.message, "session operation already finished"),
        other => panic!("{other:?}"),
    }
    let (mut m, _) = GetSession::begin(&s, "k");
    match m.step(Reply::Done) {
        Step::Finish(Err(e)) => {
            assert_eq!(e.code, ErrorCode::Internal);
            assert_eq!(e.message, "unexpected reply from the session backend");
        }
        other => panic!("{other:?}"),
    }
}

#[test]
fn scope_naming_another_users_session_answers_nothing() {
    let s = store();
    let mut kv = Keyspace::default();
    let alice = ctx("dev", "acme", None, Some("alice"));
    let sc = scope("chat-1");
    register(&mut kv, &s, &alice, "alice", &sc, "sess-a", &alice, None).unwrap();
    // point the scope at a session stored for another tenant
    let other = ctx("dev", "globex", None, Some("alice"));
    put_session(&mut kv, &s, "sess-x", &record(&other));
    let foreign_payload = kv.text("ns:session:sess-x");
    let scope_key = s.scope_wait_key(&alice, "alice", &sc);
    kv.perform(Command::Put { key: scope_key.clone(), value: "sess-x".to_string() });
    assert_eq!(maybe_key(find(&mut kv, &s, &alice, "alice", &sc).unwrap()), None);
    assert!(kv.text(&scope_key).is_none());
    // the foreign session itself is left alone
    assert_eq!(kv.text("ns:session:sess-x"), foreign_payload);
}

#[test]
fn wait_keys_differ_between_users_and_kinds() {
    let s = store();
    let a = ctx("dev", "acme", None, Some("alice"));
    let b = ctx("dev", "acme", None, Some("bob"));
    let sc = scope("chat-1");
    assert_ne!(s.user_waits_key(&a, "alice"), s.user_waits_key(&b, "bob"));
    assert_ne!(s.scope_wait_key(&a, "alice", &sc), s.scope_wait_key(&b, "bob", &sc));
    assert_ne!(s.session_entry_key("x"), s.session_entry_key("y"));
    assert_ne!(s.user_waits_key(&a, "alice"), s.scope_wait_key(&a, "alice", &sc));
}

#[test]
fn from_url_is_the_default_namespace_constructor() {
    for url in ["redis://127.0.0.1/", "not a url", "http://example.com", "redis://h:6379/3"] {
        let a = RedisSessionStore::from_url(url);
        let b = RedisSessionStore::from_url_with_namespace(url, "greentic:session".to_string());
        match (a, b) {
            (Ok(a), Ok(b)) => {
                assert_eq!(a.namespace(), b.namespace());
                assert_eq!(format!("{:?}", a.client().get_connection_info()), format!("{:?}", b.client().get_connection_info()));
            }
            (Err(a), Err(b)) => {
                assert_eq!(a.code, b.code);
                assert_eq!(a.message, b.message);
            }
            _ => panic!("constructors disagree on {url}"),
        }
    }
}

#[test]
fn an_unparsable_url_reports_the_client_error() {
    let e = RedisSessionStore::from_url("not a url").err().unwrap();
    let direct = redis::Client::open("not a url").err().unwrap().to_string();
    assert_eq!(e.code, ErrorCode::Unavailable);
    assert_eq!(e.message, direct);
    match create_session_store(SessionBackendConfig::RedisUrl("not a url".to_string())) {
        Err(e2) => assert_eq!(e2.message, direct),
        Ok(_) => panic!("expected an error"),
    }
}

#[test]
fn the_store_client_is_opened_on_the_given_url() {
    let s = RedisSessionStore::from_url("redis://10.1.2.3:6390/4").unwrap();
    let direct = redis::Client::open("redis://10.1.2.3:6390/4").unwrap();
    assert_eq!(format!("{:?}", s.client().get_connection_info()), format!("{:?}", direct.get_connection_info()));
}

#[test]
fn serialize_then_deserialize_gives_the_record_back() {
    let c = ctx("dev", "acme", Some("ops"), Some("alice"));
    let mut data = record(&c);
    data.tenant_details.attributes = vec![("k1".to_string(), "v".to_string()), ("k2".to_string(), "w".to_string())];
    let payload = RedisSessionStore::serialize(&data).unwrap();
    let back = RedisSessionStore::deserialize(&payload).unwrap();
    assert_eq!(format!("{back:?}"), format!("{data:?}"));
}

#[test]
fn deserialize_refuses_an_invalid_identifier() {
    let c = ctx("dev", "acme corp", None, None);
    let payload = RedisSessionStore::serialize(&record(&c)).unwrap();
    let e = RedisSessionStore::deserialize(&payload).err().unwrap();
    assert_eq!(e.code, ErrorCode::Internal);
    assert!(!e.message.is_empty());
}

#[test]
fn deserialized_attributes_come_ordered_by_key() {
    let c = ctx("dev", "acme", None, None);
    let mut data = record(&c);
    data.tenant_details.attributes = vec![("b".to_string(), "2".to_string()), ("a".to_string(), "1".to_string())];
    let back = RedisSessionStore::deserialize(&RedisSessionStore::serialize(&data).unwrap()).unwrap();
    assert_eq!(back.tenant_details.attributes, vec![("a".to_string(), "1".to_string()), ("b".to_string(), "2".to_string())]);
}

#[test]
fn listing_leaves_only_answering_waits() {
    let s = store();
    let mut kv = Keyspace::default();
    let alice = ctx("dev", "acme", None, Some("alice"));
    register(&mut kv, &s, &alice, "alice", &scope("a"), "k-a", &alice, None).unwrap();
    let waits = "ns:waits:user:dev:acme:-:alice".to_string();
    kv.perform(Command::AddMember { key: waits.clone(), member: "k-gone".to_string() });
    put_session(&mut kv, &s, "k-bob", &record(&ctx("dev", "acme", None, Some("bob"))));
    kv.perform(Command::AddMember { key: waits.clone(), member: "k-bob".to_string() });
    match list(&mut kv, &s, &alice, "alice").unwrap() {
        Outcome::Keys(ks) => assert_eq!(ks, vec!["k-a".to_string()]),
        other => panic!("{other:?}"),
    }
    assert_eq!(kv.members(&waits), vec!["k-a".to_string()]);
    // the foreign session itself stays stored
    assert!(kv.text("ns:session:k-bob").is_some());
}

#[test]
fn backend_config_clones() {
    let c = SessionBackendConfig::RedisUrlWithNamespace { url: "redis://h/".to_string(), namespace: "n".to_string() };
    let d = c.clone();
    assert_eq!(format!("{c:?}"), format!("{d:?}"));
}
