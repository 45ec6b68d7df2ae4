//! The tenant context that scopes every session, and the rules that decide
//! whether two contexts may share a session.

use vstd::prelude::*;
use crate::error::{ErrorCode, SessionError, invalid_argument};

verus! {

/// The identity part of a tenant context that session stores read.
///
/// Teams and users each come in two fields, a legacy one (`team`, `user`)
/// and a shared-schema one (`team_id`, `user_id`); the shared one wins when
/// both are set.
#[derive(Debug)]
pub struct TenantCtx {
    pub env: String,
    pub tenant_id: String,
    pub team: Option<String>,
    pub team_id: Option<String>,
    pub user: Option<String>,
    pub user_id: Option<String>,
}

/// A tenant context as mathematical values.
pub struct TenantView {
    pub env: Seq<char>,
    pub tenant_id: Seq<char>,
    pub team: Option<Seq<char>>,
    pub team_id: Option<Seq<char>>,
    pub user: Option<Seq<char>>,
    pub user_id: Option<Seq<char>>,
}

/// The view of an optional string.
pub open spec fn opt_view(o: Option<String>) -> Option<Seq<char>> {
    match o {
        Some(s) => Some(s@),
        None => None,
    }
}

impl View for TenantCtx {
    type V = TenantView;

    open spec fn view(&self) -> TenantView {
        TenantView {
            env: self.env@,
            tenant_id: self.tenant_id@,
            team: opt_view(self.team),
            team_id: opt_view(self.team_id),
            user: opt_view(self.user),
            user_id: opt_view(self.user_id),
        }
    }
}

impl TenantView {
    /// The effective team: `team_id` if set, else `team`.
    pub open spec fn team_of(self) -> Option<Seq<char>> {
        if self.team_id is Some {
            self.team_id
        } else {
            self.team
        }
    }

    /// The effective user: `user_id` if set, else `user`.
    pub open spec fn user_of(self) -> Option<Seq<char>> {
        if self.user_id is Some {
            self.user_id
        } else {
            self.user
        }
    }

    /// Environment, tenant and effective team agree.
    pub open spec fn same_scope(self, other: TenantView) -> bool {
        &&& self.env == other.env
        &&& self.tenant_id == other.tenant_id
        &&& self.team_of() == other.team_of()
    }
}

/// The team written into messages and keys: the effective team, or `-`.
pub open spec fn team_label(ctx: TenantView) -> Seq<char> {
    match ctx.team_of() {
        Some(t) => t,
        None => "-"@,
    }
}

/// Whether a context names a user, as written into messages.
pub open spec fn user_presence(ctx: TenantView) -> Seq<char> {
    if ctx.user_of() is Some {
        "present"@
    } else {
        "missing"@
    }
}

/// The message of a tenant-context mismatch between a stored context and
/// the one a caller supplied.
pub open spec fn mismatch_message(expected: TenantView, provided: TenantView, reason: Seq<char>) -> Seq<char> {
    "tenant context mismatch ("@ + reason + "): expected env="@ + expected.env
        + ", tenant="@ + expected.tenant_id + ", team="@ + team_label(expected)
        + ", user="@ + user_presence(expected) + ", got env="@ + provided.env
        + ", tenant="@ + provided.tenant_id + ", team="@ + team_label(provided)
        + ", user="@ + user_presence(provided)
}

/// Why a caller context may not use a session stored under `stored`, if it may not.
pub open spec fn alignment_failure(ctx: TenantView, stored: TenantView) -> Option<Seq<char>> {
    if ctx.env != stored.env || ctx.tenant_id != stored.tenant_id {
        Some("env/tenant must match"@)
    } else if ctx.team_of() != stored.team_of() {
        Some("team must match"@)
    } else {
        match stored.user_of() {
            Some(su) => match ctx.user_of() {
                None => Some("user required by session but missing in caller context"@),
                Some(pu) => if su != pu {
                    Some("user must match stored session"@)
                } else {
                    None
                },
            },
            None => None,
        }
    }
}

/// Why a session stored under `existing` may not be replaced by one under
/// `candidate`, if it may not.
pub open spec fn preservation_failure(existing: TenantView, candidate: TenantView) -> Option<Seq<char>> {
    if existing.env != candidate.env || existing.tenant_id != candidate.tenant_id {
        Some("env/tenant cannot change for an existing session"@)
    } else if existing.team_of() != candidate.team_of() {
        Some("team cannot change for an existing session"@)
    } else {
        match (existing.user_of(), candidate.user_of()) {
            (Some(a), Some(b)) => if a == b {
                None
            } else {
                Some("user cannot change for an existing session"@)
            },
            (Some(_), None) => Some("user cannot change for an existing session"@),
            (None, Some(_)) => Some("user cannot be introduced when none was stored"@),
            (None, None) => None,
        }
    }
}

/// Why `user` may not register a wait on a session stored under `stored`,
/// with caller context `ctx`, if it may not.
pub open spec fn wait_user_failure(ctx: TenantView, user: Seq<char>, stored: TenantView) -> Option<Seq<char>> {
    if ctx.user_of() is Some && ctx.user_of() != Some(user) {
        Some("user must match tenant context when registering a wait"@)
    } else {
        match stored.user_of() {
            Some(su) => if su != user {
                Some("user must match session data when registering a wait"@)
            } else {
                None
            },
            None => Some("user required by wait but missing in session data"@),
        }
    }
}

/// A stored session still answers `user` in context `ctx`: same environment,
/// tenant and team, and no other user recorded on the session.
pub open spec fn wait_belongs_to(stored: TenantView, ctx: TenantView, user: Seq<char>) -> bool {
    &&& stored.same_scope(ctx)
    &&& (stored.user_of() matches Some(su) ==> su == user)
}

/// Two strings hold the same text.
pub fn same_text(a: &String, b: &String) -> (r: bool)
    ensures
        r == (a@ == b@),
{
    a.eq(b)
}

/// Two optional strings are both absent or hold the same text.
pub fn same_opt_text(a: Option<&String>, b: Option<&String>) -> (r: bool)
    ensures
        r == (match (a, b) {
            (Some(x), Some(y)) => x@ == y@,
            (None, None) => true,
            _ => false,
        }),
{
    match (a, b) {
        (Some(x), Some(y)) => same_text(x, y),
        (None, None) => true,
        _ => false,
    }
}

impl TenantCtx {
    /// Builds a context from its parts.
    pub fn new(
        env: String,
        tenant_id: String,
        team: Option<String>,
        team_id: Option<String>,
        user: Option<String>,
        user_id: Option<String>,
    ) -> (r: Self)
        ensures
            r.env == env,
            r.tenant_id == tenant_id,
            r.team == team,
            r.team_id == team_id,
            r.user == user,
            r.user_id == user_id,
    {
        TenantCtx { env, tenant_id, team, team_id, user, user_id }
    }

    /// A copy with the same text in every field.
    pub fn duplicate(&self) -> (r: Self)
        ensures
            r@ == self@,
    {
        TenantCtx {
            env: self.env.clone(),
            tenant_id: self.tenant_id.clone(),
            team: copy_opt(&self.team),
            team_id: copy_opt(&self.team_id),
            user: copy_opt(&self.user),
            user_id: copy_opt(&self.user_id),
        }
    }

    /// The effective team: `team_id` if set, else `team`.
    pub fn normalize_team(&self) -> (r: Option<&String>)
        ensures
            opt_ref_view(r) == self@.team_of(),
    {
        match &self.team_id {
            Some(t) => Some(t),
            None => match &self.team {
                Some(t) => Some(t),
                None => None,
            },
        }
    }

    /// The effective user: `user_id` if set, else `user`.
    pub fn normalize_user(&self) -> (r: Option<&String>)
        ensures
            opt_ref_view(r) == self@.user_of(),
    {
        match &self.user_id {
            Some(u) => Some(u),
            None => match &self.user {
                Some(u) => Some(u),
                None => None,
            },
        }
    }

    /// Environment, tenant and effective team agree with `other`.
    pub fn same_scope(&self, other: &TenantCtx) -> (r: bool)
        ensures
            r == self@.same_scope(other@),
    {
        same_text(&self.env, &other.env) && same_text(&self.tenant_id, &other.tenant_id)
            && same_opt_text(self.normalize_team(), other.normalize_team())
    }
}

/// The view of an optional string reference.
pub open spec fn opt_ref_view(o: Option<&String>) -> Option<Seq<char>> {
    match o {
        Some(s) => Some(s@),
        None => None,
    }
}

/// A copy of an optional string.
pub fn copy_opt(o: &Option<String>) -> (r: Option<String>)
    ensures
        opt_view(r) == opt_view(*o),
{
    match o {
        Some(s) => Some(s.clone()),
        None => None,
    }
}

/// The team label of a context: its effective team, or `-`.
pub fn team_label_of(ctx: &TenantCtx) -> (r: String)
    ensures
        r@ == team_label(ctx@),
{
    match ctx.normalize_team() {
        Some(t) => t.clone(),
        None => String::from_str("-"),
    }
}

/// `present` when a context names a user, else `missing`.
fn user_presence_of(ctx: &TenantCtx) -> (r: String)
    ensures
        r@ == user_presence(ctx@),
{
    if ctx.normalize_user().is_some() {
        String::from_str("present")
    } else {
        String::from_str("missing")
    }
}

/// The error for a caller context that does not fit a stored one.
pub fn ctx_mismatch(expected: &TenantCtx, provided: &TenantCtx, reason: &str) -> (e: SessionError)
    ensures
        e.code == ErrorCode::InvalidInput,
        e.message@ == mismatch_message(expected@, provided@, reason@),
{
    let expected_team = team_label_of(expected);
    let provided_team = team_label_of(provided);
    let expected_user = user_presence_of(expected);
    let provided_user = user_presence_of(provided);
    let mut m = String::from_str("tenant context mismatch (");
    m.append(reason);
    m.append("): expected env=");
    m.append(expected.env.as_str());
    m.append(", tenant=");
    m.append(expected.tenant_id.as_str());
    m.append(", team=");
    m.append(expected_team.as_str());
    m.append(", user=");
    m.append(expected_user.as_str());
    m.append(", got env=");
    m.append(provided.env.as_str());
    m.append(", tenant=");
    m.append(provided.tenant_id.as_str());
    m.append(", team=");
    m.append(provided_team.as_str());
    m.append(", user=");
    m.append(provided_user.as_str());
    invalid_argument(m)
}

/// Checks that a caller context may use a session stored under `stored`.
pub fn ensure_alignment(ctx: &TenantCtx, stored: &TenantCtx) -> (r: Result<(), SessionError>)
    ensures
        r is Ok <==> alignment_failure(ctx@, stored@) is None,
        r matches Err(e) ==> e.code == ErrorCode::InvalidInput && e.message@ == mismatch_message(
            stored@,
            ctx@,
            alignment_failure(ctx@, stored@)->0,
        ),
{
    if !same_text(&ctx.env, &stored.env) || !same_text(&ctx.tenant_id, &stored.tenant_id) {
        return Err(ctx_mismatch(stored, ctx, "env/tenant must match"));
    }
    if !same_opt_text(ctx.normalize_team(), stored.normalize_team()) {
        return Err(ctx_mismatch(stored, ctx, "team must match"));
    }
    if let Some(stored_user) = stored.normalize_user() {
        match ctx.normalize_user() {
            None => {
                return Err(ctx_mismatch(
                    stored,
                    ctx,
                    "user required by session but missing in caller context",
                ));
            },
            Some(provided_user) => {
                if !same_text(stored_user, provided_user) {
                    return Err(ctx_mismatch(stored, ctx, "user must match stored session"));
                }
            },
        }
    }
    Ok(())
}

/// Checks that a session stored under `existing` may be replaced by one
/// under `candidate`.
pub fn ensure_ctx_preserved(existing: &TenantCtx, candidate: &TenantCtx) -> (r: Result<(), SessionError>)
    ensures
        r is Ok <==> preservation_failure(existing@, candidate@) is None,
        r matches Err(e) ==> e.code == ErrorCode::InvalidInput && e.message@ == mismatch_message(
            existing@,
            candidate@,
            preservation_failure(existing@, candidate@)->0,
        ),
{
    if !same_text(&existing.env, &candidate.env) || !same_text(&existing.tenant_id, &candidate.tenant_id) {
        return Err(ctx_mismatch(existing, candidate, "env/tenant cannot change for an existing session"));
    }
    if !same_opt_text(existing.normalize_team(), candidate.normalize_team()) {
        return Err(ctx_mismatch(existing, candidate, "team cannot change for an existing session"));
    }
    match (existing.normalize_user(), candidate.normalize_user()) {
        (Some(a), Some(b)) => {
            if !same_text(a, b) {
                return Err(ctx_mismatch(existing, candidate, "user cannot change for an existing session"));
            }
        },
        (Some(_), None) => {
            return Err(ctx_mismatch(existing, candidate, "user cannot change for an existing session"));
        },
        (None, Some(_)) => {
            return Err(ctx_mismatch(existing, candidate, "user cannot be introduced when none was stored"));
        },
        (None, None) => {},
    }
    Ok(())
}

/// Checks that `user` may register a wait on a session stored under
/// `stored` from caller context `ctx`.
pub fn ensure_user_matches(ctx: &TenantCtx, user: &String, stored: &TenantCtx) -> (r: Result<(), SessionError>)
    ensures
        r is Ok <==> wait_user_failure(ctx@, user@, stored@) is None,
        r matches Err(e) ==> e.code == ErrorCode::InvalidInput && e.message@ == wait_user_failure(
            ctx@,
            user@,
            stored@,
        )->0,
{
    if let Some(ctx_user) = ctx.normalize_user() {
        if !same_text(ctx_user, user) {
            return Err(invalid_argument(
                String::from_str("user must match tenant context when registering a wait"),
            ));
        }
    }
    match stored.normalize_user() {
        Some(stored_user) => {
            if !same_text(stored_user, user) {
                return Err(invalid_argument(
                    String::from_str("user must match session data when registering a wait"),
                ));
            }
        },
        None => {
            return Err(invalid_argument(
                String::from_str("user required by wait but missing in session data"),
            ));
        },
    }
    Ok(())
}

/// Whether a stored session still answers `user` in context `ctx`.
pub fn wait_matches(stored: &TenantCtx, ctx: &TenantCtx, user: &String) -> (r: bool)
    ensures
        r == wait_belongs_to(stored@, ctx@, user@),
{
    if !stored.same_scope(ctx) {
        return false;
    }
    match stored.normalize_user() {
        Some(su) => same_text(su, user),
        None => true,
    }
}


/// The error for a caller context that does not fit a stored one.
pub open spec fn mismatch_error(expected: TenantView, provided: TenantView, reason: Seq<char>) -> crate::error::SessionErrorView {
    crate::error::SessionErrorView {
        code: ErrorCode::InvalidInput,
        message: mismatch_message(expected, provided, reason),
    }
}

/// A caller whose context is the stored one passes every check: it may use
/// the session, and replacing the session with data of the same context is
/// allowed.
pub proof fn lemma_same_context_passes(c: TenantView)
    ensures
        alignment_failure(c, c) is None,
        preservation_failure(c, c) is None,
{
}

/// A caller that passes the alignment check shares the session's
/// environment, tenant and team, and names its user when it has one; a
/// wait registered for `user` that passes both checks belongs to `user`.
pub proof fn lemma_alignment_meaning(ctx: TenantView, stored: TenantView, user: Seq<char>)
    ensures
        alignment_failure(ctx, stored) is None ==> {
            &&& stored.same_scope(ctx)
            &&& stored.user_of() is Some ==> ctx.user_of() == stored.user_of()
        },
        alignment_failure(ctx, stored) is None && wait_user_failure(ctx, user, stored) is None
            ==> wait_belongs_to(stored, ctx, user) && stored.user_of() == Some(user),
{
}

/// Replacing a stored session is allowed exactly when the candidate keeps
/// the environment, the tenant, the effective team and the effective user,
/// where a context's effective team (user) is its shared-schema `team_id`
/// (`user_id`) when set and its legacy `team` (`user`) otherwise.
pub proof fn law_preservation_keeps_effective_identity(existing: TenantView, candidate: TenantView)
    ensures
        preservation_failure(existing, candidate) is None <==> {
            &&& existing.env == candidate.env
            &&& existing.tenant_id == candidate.tenant_id
            &&& (if existing.team_id is Some { existing.team_id } else { existing.team }) == (if candidate.team_id is Some {
                candidate.team_id
            } else {
                candidate.team
            })
            &&& (if existing.user_id is Some { existing.user_id } else { existing.user }) == (if candidate.user_id is Some {
                candidate.user_id
            } else {
                candidate.user
            })
        },
{
}

/// A caller may use a stored session exactly when environment, tenant and
/// effective team agree and, where the session records an effective user,
/// the caller's effective user is that user (shared-schema field when set,
/// else the legacy one).
pub proof fn law_alignment_by_effective_identity(ctx: TenantView, stored: TenantView)
    ensures
        alignment_failure(ctx, stored) is None <==> {
            &&& ctx.env == stored.env
            &&& ctx.tenant_id == stored.tenant_id
            &&& (if ctx.team_id is Some { ctx.team_id } else { ctx.team }) == (if stored.team_id is Some {
                stored.team_id
            } else {
                stored.team
            })
            &&& ((if stored.user_id is Some { stored.user_id } else { stored.user }) is Some ==> (if ctx.user_id is Some {
                ctx.user_id
            } else {
                ctx.user
            }) == (if stored.user_id is Some { stored.user_id } else { stored.user }))
        },
{
}

/// `user` may register a wait exactly when the caller's effective user, if
/// any, is `user`, and the session's effective user is `user` (each the
/// shared-schema field when set, else the legacy one).
pub proof fn law_wait_user_by_effective_identity(ctx: TenantView, user: Seq<char>, stored: TenantView)
    ensures
        wait_user_failure(ctx, user, stored) is None <==> {
            &&& ((if ctx.user_id is Some { ctx.user_id } else { ctx.user }) is Some ==> (if ctx.user_id is Some {
                ctx.user_id
            } else {
                ctx.user
            }) == Some(user))
            &&& (if stored.user_id is Some { stored.user_id } else { stored.user }) == Some(user)
        },
        wait_belongs_to(stored, ctx, user) <==> {
            &&& stored.env == ctx.env
            &&& stored.tenant_id == ctx.tenant_id
            &&& (if stored.team_id is Some { stored.team_id } else { stored.team }) == (if ctx.team_id is Some {
                ctx.team_id
            } else {
                ctx.team
            })
            &&& ((if stored.user_id is Some { stored.user_id } else { stored.user }) is Some ==> (if stored.user_id is Some {
                stored.user_id
            } else {
                stored.user
            }) == Some(user))
        },
{
}

} // verus!
