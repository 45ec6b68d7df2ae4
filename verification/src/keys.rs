//! Layout of the keys a session store writes into its key-value backend.
//!
//! Every key starts with the store's namespace. A session payload lives at
//! `{ns}:session:{key}`; the set of sessions a user waits on lives at
//! `{ns}:waits:user:{env}:{tenant}:{team}:{user}`; the session that answers a
//! reply scope lives at `{ns}:waits:scope:{env}:{tenant}:{team}:{user}:{hash}`.

use vstd::prelude::*;
use crate::tenant::{TenantCtx, TenantView, team_label, team_label_of};

verus! {

/// The key that holds the payload of session `key`.
pub open spec fn session_entry_key(ns: Seq<char>, key: Seq<char>) -> Seq<char> {
    ns + ":session:"@ + key
}

/// The key of the set of sessions that `user` waits on in context `ctx`.
pub open spec fn user_waits_key(ns: Seq<char>, ctx: TenantView, user: Seq<char>) -> Seq<char> {
    ns + ":waits:user:"@ + ctx.env + ":"@ + ctx.tenant_id + ":"@ + team_label(ctx) + ":"@ + user
}

/// The key that names the session answering a reply scope with hash `hash`.
pub open spec fn scope_wait_key(ns: Seq<char>, ctx: TenantView, user: Seq<char>, hash: Seq<char>) -> Seq<char> {
    ns + ":waits:scope:"@ + ctx.env + ":"@ + ctx.tenant_id + ":"@ + team_label(ctx) + ":"@ + user
        + ":"@ + hash
}

/// Builds the key that holds the payload of session `key`.
pub fn make_session_entry_key(ns: &str, key: &str) -> (r: String)
    ensures
        r@ == session_entry_key(ns@, key@),
{
    let mut k = String::from_str(ns);
    k.append(":session:");
    k.append(key);
    k
}

/// Builds the key of the set of sessions that `user` waits on in `ctx`.
pub fn make_user_waits_key(ns: &str, ctx: &TenantCtx, user: &str) -> (r: String)
    ensures
        r@ == user_waits_key(ns@, ctx@, user@),
{
    let team = team_label_of(ctx);
    let mut k = String::from_str(ns);
    k.append(":waits:user:");
    k.append(ctx.env.as_str());
    k.append(":");
    k.append(ctx.tenant_id.as_str());
    k.append(":");
    k.append(team.as_str());
    k.append(":");
    k.append(user);
    k
}

/// Builds the key that names the session answering a reply scope.
pub fn make_scope_wait_key(ns: &str, ctx: &TenantCtx, user: &str, hash: &str) -> (r: String)
    ensures
        r@ == scope_wait_key(ns@, ctx@, user@, hash@),
{
    let team = team_label_of(ctx);
    let mut k = String::from_str(ns);
    k.append(":waits:scope:");
    k.append(ctx.env.as_str());
    k.append(":");
    k.append(ctx.tenant_id.as_str());
    k.append(":");
    k.append(team.as_str());
    k.append(":");
    k.append(user);
    k.append(":");
    k.append(hash);
    k
}

/// Distinct sessions of one namespace are stored under distinct keys.
pub proof fn lemma_session_entry_key_injective(ns: Seq<char>, k1: Seq<char>, k2: Seq<char>)
    ensures
        session_entry_key(ns, k1) == session_entry_key(ns, k2) ==> k1 == k2,
{
    let p = ns + ":session:"@;
    if session_entry_key(ns, k1) == session_entry_key(ns, k2) {
        assert(k1 =~= session_entry_key(ns, k1).subrange(p.len() as int, session_entry_key(ns, k1).len() as int));
        assert(k2 =~= session_entry_key(ns, k2).subrange(p.len() as int, session_entry_key(ns, k2).len() as int));
    }
}

/// In one namespace, a session payload key, a user's wait-set key and a
/// scope key are never the same key.
pub proof fn lemma_key_kinds_disjoint(
    ns: Seq<char>,
    key: Seq<char>,
    ctx1: TenantView,
    user1: Seq<char>,
    ctx2: TenantView,
    user2: Seq<char>,
    hash: Seq<char>,
)
    ensures
        session_entry_key(ns, key) != user_waits_key(ns, ctx1, user1),
        session_entry_key(ns, key) != scope_wait_key(ns, ctx2, user2, hash),
        user_waits_key(ns, ctx1, user1) != scope_wait_key(ns, ctx2, user2, hash),
{
    reveal_strlit(":session:");
    reveal_strlit(":waits:user:");
    reveal_strlit(":waits:scope:");
    let n = ns.len() as int;
    let e = session_entry_key(ns, key);
    let u = user_waits_key(ns, ctx1, user1);
    let s = scope_wait_key(ns, ctx2, user2, hash);
    assert(e[n + 1] == 's');
    assert(u[n + 1] == 'w');
    assert(s[n + 1] == 'w');
    assert(u[n + 7] == 'u');
    assert(s[n + 7] == 's');
}

/// The text holds no `:`, the separator of key parts; Greentic identifiers
/// never do.
pub open spec fn no_colon(s: Seq<char>) -> bool {
    forall|i: int| 0 <= i < s.len() ==> s[i] != ':'
}

/// Equal texts that share a prefix agree after it.
proof fn lemma_strip_prefix(p: Seq<char>, x: Seq<char>, y: Seq<char>)
    requires
        p + x == p + y,
    ensures
        x == y,
{
    assert(x =~= (p + x).subrange(p.len() as int, (p + x).len() as int));
    assert(y =~= (p + y).subrange(p.len() as int, (p + y).len() as int));
}

/// A colon-free part followed by `:` is determined by the text.
proof fn lemma_split_at_colon(a: Seq<char>, b: Seq<char>, c: Seq<char>, d: Seq<char>)
    requires
        no_colon(a),
        no_colon(c),
        a + (":"@ + b) == c + (":"@ + d),
    ensures
        a == c,
        b == d,
{
    reveal_strlit(":");
    let x = a + (":"@ + b);
    if a.len() < c.len() {
        assert(x[a.len() as int] == ':');
        assert(x[a.len() as int] == c[a.len() as int]);
    } else if c.len() < a.len() {
        assert(x[c.len() as int] == ':');
        assert(x[c.len() as int] == a[c.len() as int]);
    }
    assert(a =~= x.subrange(0, a.len() as int));
    assert(c =~= x.subrange(0, c.len() as int));
    assert((a + ":"@) + b =~= x);
    assert((a + ":"@) + d =~= c + (":"@ + d));
    lemma_strip_prefix(a + ":"@, b, d);
}

/// The parts of a wait key after its kind marker, as one right-nested text.
spec fn waits_tail(ctx: TenantView, user: Seq<char>) -> Seq<char> {
    ctx.env + (":"@ + (ctx.tenant_id + (":"@ + (team_label(ctx) + (":"@ + user)))))
}

/// The parts of a wait key are colon-free.
pub open spec fn colon_free_parts(ctx: TenantView, user: Seq<char>) -> bool {
    &&& no_colon(ctx.env)
    &&& no_colon(ctx.tenant_id)
    &&& no_colon(team_label(ctx))
    &&& no_colon(user)
}

proof fn lemma_waits_tail_injective(c1: TenantView, u1: Seq<char>, c2: TenantView, u2: Seq<char>)
    requires
        colon_free_parts(c1, u1),
        colon_free_parts(c2, u2),
        waits_tail(c1, u1) == waits_tail(c2, u2),
    ensures
        c1.env == c2.env,
        c1.tenant_id == c2.tenant_id,
        team_label(c1) == team_label(c2),
        u1 == u2,
{
    lemma_split_at_colon(
        c1.env,
        c1.tenant_id + (":"@ + (team_label(c1) + (":"@ + u1))),
        c2.env,
        c2.tenant_id + (":"@ + (team_label(c2) + (":"@ + u2))),
    );
    lemma_split_at_colon(
        c1.tenant_id,
        team_label(c1) + (":"@ + u1),
        c2.tenant_id,
        team_label(c2) + (":"@ + u2),
    );
    lemma_split_at_colon(team_label(c1), u1, team_label(c2), u2);
}

/// A wait-set key, re-associated as prefix and parts.
proof fn lemma_user_waits_key_shape(ns: Seq<char>, c: TenantView, u: Seq<char>)
    ensures
        user_waits_key(ns, c, u) == (ns + ":waits:user:"@) + waits_tail(c, u),
{
    assert(user_waits_key(ns, c, u) =~= (ns + ":waits:user:"@) + waits_tail(c, u));
}

/// A scope key, re-associated as prefix, parts and hash.
proof fn lemma_scope_wait_key_shape(ns: Seq<char>, c: TenantView, u: Seq<char>, hash: Seq<char>)
    ensures
        scope_wait_key(ns, c, u, hash) == (ns + ":waits:scope:"@) + (waits_tail(c, u) + (":"@ + hash)),
{
    assert(scope_wait_key(ns, c, u, hash) =~= (ns + ":waits:scope:"@) + (waits_tail(c, u) + (":"@ + hash)));
}

/// Users of different environments, tenants, teams or names have different
/// wait-set keys, when the parts hold no `:`.
pub proof fn lemma_user_waits_key_injective(ns: Seq<char>, c1: TenantView, u1: Seq<char>, c2: TenantView, u2: Seq<char>)
    requires
        colon_free_parts(c1, u1),
        colon_free_parts(c2, u2),
        user_waits_key(ns, c1, u1) == user_waits_key(ns, c2, u2),
    ensures
        c1.env == c2.env,
        c1.tenant_id == c2.tenant_id,
        team_label(c1) == team_label(c2),
        u1 == u2,
{
    lemma_user_waits_key_shape(ns, c1, u1);
    lemma_user_waits_key_shape(ns, c2, u2);
    lemma_strip_prefix(ns + ":waits:user:"@, waits_tail(c1, u1), waits_tail(c2, u2));
    lemma_waits_tail_injective(c1, u1, c2, u2);
}

/// Users of different environments, tenants, teams or names have different
/// scope keys for the same scope, when the parts hold no `:`.
pub proof fn lemma_scope_wait_key_injective(
    ns: Seq<char>,
    c1: TenantView,
    u1: Seq<char>,
    c2: TenantView,
    u2: Seq<char>,
    hash: Seq<char>,
)
    requires
        colon_free_parts(c1, u1),
        colon_free_parts(c2, u2),
        scope_wait_key(ns, c1, u1, hash) == scope_wait_key(ns, c2, u2, hash),
    ensures
        c1.env == c2.env,
        c1.tenant_id == c2.tenant_id,
        team_label(c1) == team_label(c2),
        u1 == u2,
{
    let h = ":"@ + hash;
    let t1 = waits_tail(c1, u1);
    let t2 = waits_tail(c2, u2);
    lemma_scope_wait_key_shape(ns, c1, u1, hash);
    lemma_scope_wait_key_shape(ns, c2, u2, hash);
    lemma_strip_prefix(ns + ":waits:scope:"@, t1 + h, t2 + h);
    assert(t1.len() == t2.len());
    assert(t1 =~= (t1 + h).subrange(0, t1.len() as int));
    assert(t2 =~= (t2 + h).subrange(0, t2.len() as int));
    lemma_waits_tail_injective(c1, u1, c2, u2);
}

/// Stores with different colon-free namespaces write session payloads
/// under different keys.
pub proof fn lemma_namespaces_separate(n1: Seq<char>, n2: Seq<char>, k1: Seq<char>, k2: Seq<char>)
    requires
        no_colon(n1),
        no_colon(n2),
        n1 != n2,
    ensures
        session_entry_key(n1, k1) != session_entry_key(n2, k2),
{
    reveal_strlit(":session:");
    reveal_strlit(":");
    reveal_strlit("session:");
    assert(":session:"@ =~= ":"@ + "session:"@);
    assert(session_entry_key(n1, k1) =~= n1 + (":"@ + ("session:"@ + k1)));
    assert(session_entry_key(n2, k2) =~= n2 + (":"@ + ("session:"@ + k2)));
    if session_entry_key(n1, k1) == session_entry_key(n2, k2) {
        lemma_split_at_colon(n1, "session:"@ + k1, n2, "session:"@ + k2);
    }
}

} // verus!
