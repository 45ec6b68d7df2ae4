//! The persisted session payload, and its JSON form.

use vstd::prelude::*;
use crate::tenant::{TenantCtx, TenantView, opt_view};

verus! {

/// `greentic_types::SessionData`: a persisted session, as the outside crate holds it.
#[verifier::external_type_specification]
#[verifier::external_body]
pub struct ExOutsideSessionData(greentic_types::SessionData);

/// Who acts for the user when a context is impersonated.
#[derive(Debug)]
pub struct Impersonation {
    pub actor_id: String,
    pub reason: Option<String>,
}

/// The parts of a session's tenant context that the store carries but does
/// not read.
#[derive(Debug)]
pub struct TenantDetails {
    pub tenant: String,
    pub session_id: Option<String>,
    pub flow_id: Option<String>,
    pub node_id: Option<String>,
    pub provider_id: Option<String>,
    pub trace_id: Option<String>,
    pub i18n_id: Option<String>,
    pub correlation_id: Option<String>,
    pub attributes: Vec<(String, String)>,
    pub deadline_unix_millis: Option<i128>,
    pub attempt: u32,
    pub idempotency_key: Option<String>,
    pub impersonation: Option<Impersonation>,
}

/// Where a paused session stands in its flow.
#[derive(Debug)]
pub struct SessionCursor {
    pub node_pointer: String,
    pub wait_reason: Option<String>,
    pub outbox_marker: Option<String>,
}

/// A persisted session: its tenant context, flow, cursor and state snapshot.
#[derive(Debug)]
pub struct SessionRecord {
    pub tenant_ctx: TenantCtx,
    pub tenant_details: TenantDetails,
    pub flow_id: String,
    pub pack_id: Option<String>,
    pub cursor: SessionCursor,
    pub context_json: String,
}

/// Tenant details as mathematical values.
pub struct TenantDetailsView {
    pub tenant: Seq<char>,
    pub session_id: Option<Seq<char>>,
    pub flow_id: Option<Seq<char>>,
    pub node_id: Option<Seq<char>>,
    pub provider_id: Option<Seq<char>>,
    pub trace_id: Option<Seq<char>>,
    pub i18n_id: Option<Seq<char>>,
    pub correlation_id: Option<Seq<char>>,
    pub attributes: Seq<(Seq<char>, Seq<char>)>,
    pub deadline_unix_millis: Option<i128>,
    pub attempt: u32,
    pub idempotency_key: Option<Seq<char>>,
    pub impersonation: Option<(Seq<char>, Option<Seq<char>>)>,
}

/// A session cursor as mathematical values.
pub struct SessionCursorView {
    pub node_pointer: Seq<char>,
    pub wait_reason: Option<Seq<char>>,
    pub outbox_marker: Option<Seq<char>>,
}

/// A persisted session as mathematical values.
pub struct SessionRecordView {
    pub tenant_ctx: TenantView,
    pub tenant_details: TenantDetailsView,
    pub flow_id: Seq<char>,
    pub pack_id: Option<Seq<char>>,
    pub cursor: SessionCursorView,
    pub context_json: Seq<char>,
}

impl View for TenantDetails {
    type V = TenantDetailsView;

    open spec fn view(&self) -> TenantDetailsView {
        TenantDetailsView {
            tenant: self.tenant@,
            session_id: opt_view(self.session_id),
            flow_id: opt_view(self.flow_id),
            node_id: opt_view(self.node_id),
            provider_id: opt_view(self.provider_id),
            trace_id: opt_view(self.trace_id),
            i18n_id: opt_view(self.i18n_id),
            correlation_id: opt_view(self.correlation_id),
            attributes: self.attributes@.map_values(|a: (String, String)| (a.0@, a.1@)),
            deadline_unix_millis: self.deadline_unix_millis,
            attempt: self.attempt,
            idempotency_key: opt_view(self.idempotency_key),
            impersonation: match self.impersonation {
                Some(i) => Some((i.actor_id@, opt_view(i.reason))),
                None => None,
            },
        }
    }
}

impl View for SessionCursor {
    type V = SessionCursorView;

    open spec fn view(&self) -> SessionCursorView {
        SessionCursorView {
            node_pointer: self.node_pointer@,
            wait_reason: opt_view(self.wait_reason),
            outbox_marker: opt_view(self.outbox_marker),
        }
    }
}

impl View for SessionRecord {
    type V = SessionRecordView;

    open spec fn view(&self) -> SessionRecordView {
        SessionRecordView {
            tenant_ctx: self.tenant_ctx@,
            tenant_details: self.tenant_details@,
            flow_id: self.flow_id@,
            pack_id: opt_view(self.pack_id),
            cursor: self.cursor@,
            context_json: self.context_json@,
        }
    }
}

/// The session that `serde_json::from_str` parses out of a stored payload
/// as a `greentic_types::SessionData`, if the payload parses.
pub uninterp spec fn decoded_session(payload: Seq<char>) -> Option<SessionRecordView>;

/// The text of the error `serde_json::from_str` reports for a payload it
/// cannot parse as a `greentic_types::SessionData`.
pub uninterp spec fn decode_failure(payload: Seq<char>) -> Seq<char>;

/// The JSON text `serde_json::to_string` writes for a session.
pub uninterp spec fn encoded_session(data: SessionRecordView) -> Seq<char>;

/// The data survives the codec: it encodes to `payload`, which decodes
/// back to it.
pub open spec fn round_trips(data: SessionRecordView, payload: Seq<char>) -> bool {
    &&& encoded_session(data) == payload
    &&& decoded_session(payload) == Some(data)
}

/// A character that greentic-types accepts in an identifier: an ASCII
/// letter or digit, `.`, `_` or `-`.
pub open spec fn is_identifier_char(c: char) -> bool {
    ('a' <= c && c <= 'z') || ('A' <= c && c <= 'Z') || ('0' <= c && c <= '9') || c == '.' || c == '_'
        || c == '-'
}

/// A text that greentic-types accepts as an identifier: not empty, and
/// made of identifier characters only.
pub open spec fn is_identifier(s: Seq<char>) -> bool {
    &&& s.len() > 0
    &&& forall|i: int| 0 <= i < s.len() ==> is_identifier_char(#[trigger] s[i])
}

/// An absent identifier, or a valid one.
pub open spec fn is_opt_identifier(o: Option<Seq<char>>) -> bool {
    o matches Some(s) ==> is_identifier(s)
}

/// Text `a` orders before text `b`, character by character, as Rust
/// orders strings.
pub open spec fn text_before(a: Seq<char>, b: Seq<char>) -> bool
    decreases a.len(),
{
    if a.len() == 0 {
        b.len() > 0
    } else if b.len() == 0 {
        false
    } else if a[0] != b[0] {
        (a[0] as u32) < (b[0] as u32)
    } else {
        text_before(a.drop_first(), b.drop_first())
    }
}

/// Attributes as a map holds them: keys strictly increasing, so each key
/// once.
pub open spec fn attributes_ordered(a: Seq<(Seq<char>, Seq<char>)>) -> bool {
    forall|i: int, j: int| 0 <= i < j < a.len() ==> text_before(#[trigger] a[i].0, #[trigger] a[j].0)
}

/// A session that a `greentic_types::SessionData` can hold: every
/// identifier valid, and attributes ordered by key with no key twice.
pub open spec fn is_valid_record(d: SessionRecordView) -> bool {
    &&& is_identifier(d.tenant_ctx.env)
    &&& is_identifier(d.tenant_ctx.tenant_id)
    &&& is_opt_identifier(d.tenant_ctx.team)
    &&& is_opt_identifier(d.tenant_ctx.team_id)
    &&& is_opt_identifier(d.tenant_ctx.user)
    &&& is_opt_identifier(d.tenant_ctx.user_id)
    &&& is_identifier(d.tenant_details.tenant)
    &&& attributes_ordered(d.tenant_details.attributes)
    &&& d.tenant_details.impersonation matches Some(i) ==> is_identifier(i.0)
    &&& is_identifier(d.flow_id)
    &&& is_opt_identifier(d.pack_id)
}

/// Calls `serde_json::from_str` to parse a stored payload as a
/// `greentic_types::SessionData`, converted field by field. Claimed: the
/// result, and the error text, are the values `decoded_session` and
/// `decode_failure` name for the payload text; and what parses is a valid
/// record, since greentic-types checks every identifier as it parses and a
/// `BTreeMap` hands its attributes out ordered by key, each key once.
#[verifier::external_body]
pub(crate) fn decode_session(payload: &str) -> (r: Result<SessionRecord, String>)
    ensures
        r is Ok <==> decoded_session(payload@) is Some,
        r matches Ok(d) ==> decoded_session(payload@) == Some(d@) && is_valid_record(d@),
        r matches Err(m) ==> m@ == decode_failure(payload@),
{
    match serde_json::from_str::<greentic_types::SessionData>(payload) {
        Ok(d) => Ok(session_from_outside(d)),
        Err(e) => Err(e.to_string()),
    }
}

/// Calls `serde_json::to_string` on the `greentic_types::SessionData` that
/// holds the same fields. Claimed: the JSON text is the value
/// `encoded_session` names for the session, and writing cannot fail (every
/// field serializes as a string, a number, a string-keyed map or a nested
/// struct of those). For a valid record the text parses back to the same
/// record: identifiers serialize as their text and pass the check again,
/// ordered attributes fill the map in the same order, and every other field
/// is written and read as it is.
#[verifier::external_body]
pub(crate) fn encode_session(data: &SessionRecord) -> (r: String)
    ensures
        r@ == encoded_session(data@),
        is_valid_record(data@) ==> decoded_session(r@) == Some(data@),
{
    serde_json::to_string(&session_to_outside(data)).unwrap_or_default()
}

/// Converts a `greentic_types::SessionData`, field by field.
#[verifier::external_body]
fn session_from_outside(d: greentic_types::SessionData) -> SessionRecord {
    SessionRecord {
        tenant_ctx: tenant_from_outside(&d),
        tenant_details: details_from_outside(&d),
        flow_id: d.flow_id.0,
        pack_id: d.pack_id.map(|p| p.0),
        cursor: SessionCursor {
            node_pointer: d.cursor.node_pointer,
            wait_reason: d.cursor.wait_reason,
            outbox_marker: d.cursor.outbox_marker,
        },
        context_json: d.context_json,
    }
}

/// Converts the identity fields of a session's tenant context.
#[verifier::external_body]
fn tenant_from_outside(d: &greentic_types::SessionData) -> TenantCtx {
    let t = &d.tenant_ctx;
    TenantCtx {
        env: t.env.0.clone(),
        tenant_id: t.tenant_id.0.clone(),
        team: t.team.as_ref().map(|x| x.0.clone()),
        team_id: t.team_id.as_ref().map(|x| x.0.clone()),
        user: t.user.as_ref().map(|x| x.0.clone()),
        user_id: t.user_id.as_ref().map(|x| x.0.clone()),
    }
}

/// Converts the other fields of a session's tenant context.
#[verifier::external_body]
fn details_from_outside(d: &greentic_types::SessionData) -> TenantDetails {
    let t = &d.tenant_ctx;
    TenantDetails { tenant: t.tenant.0.clone(),
        session_id: t.session_id.clone(),
        flow_id: t.flow_id.clone(),
        node_id: t.node_id.clone(),
        provider_id: t.provider_id.clone(),
        trace_id: t.trace_id.clone(),
        i18n_id: t.i18n_id.clone(),
        correlation_id: t.correlation_id.clone(),
        attributes: t.attributes.clone().into_iter().collect(),
        deadline_unix_millis: t.deadline.map(|x| x.unix_millis()),
        attempt: t.attempt,
        idempotency_key: t.idempotency_key.clone(),
        impersonation: t.impersonation.as_ref().map(|x| Impersonation { actor_id: x.actor_id.0.clone(), reason: x.reason.clone() }) }
}

/// Converts into a `greentic_types::SessionData`, field by field.
#[verifier::external_body]
fn session_to_outside(d: &SessionRecord) -> greentic_types::SessionData {
    let s = greentic_types::SessionData {
        tenant_ctx: greentic_types::TenantCtx::new(
            greentic_types::EnvId(d.tenant_ctx.env.clone()),
            greentic_types::TenantId(d.tenant_details.tenant.clone()),
        ),
        flow_id: greentic_types::FlowId(d.flow_id.clone()),
        pack_id: d.pack_id.clone().map(greentic_types::PackId),
        cursor: greentic_types::SessionCursor { node_pointer: d.cursor.node_pointer.clone(), wait_reason: d.cursor.wait_reason.clone(), outbox_marker: d.cursor.outbox_marker.clone() },
        context_json: d.context_json.clone(),
    };
    details_to_outside(&d.tenant_details, identity_to_outside(&d.tenant_ctx, s))
}

/// Sets the identity fields of a session's tenant context.
#[verifier::external_body]
fn identity_to_outside(c: &TenantCtx, mut s: greentic_types::SessionData) -> greentic_types::SessionData {
    s.tenant_ctx.tenant_id = greentic_types::TenantId(c.tenant_id.clone());
    s.tenant_ctx.team = c.team.clone().map(greentic_types::TeamId);
    s.tenant_ctx.team_id = c.team_id.clone().map(greentic_types::TeamId);
    s.tenant_ctx.user = c.user.clone().map(greentic_types::UserId);
    s.tenant_ctx.user_id = c.user_id.clone().map(greentic_types::UserId);
    s
}

/// Sets the other fields of a session's tenant context from details.
#[verifier::external_body]
fn details_to_outside(x: &TenantDetails, mut s: greentic_types::SessionData) -> greentic_types::SessionData {
    let t = &mut s.tenant_ctx;
    t.session_id = x.session_id.clone();
    t.flow_id = x.flow_id.clone();
    t.node_id = x.node_id.clone();
    t.provider_id = x.provider_id.clone();
    t.trace_id = x.trace_id.clone();
    t.i18n_id = x.i18n_id.clone();
    t.correlation_id = x.correlation_id.clone();
    t.attributes = x.attributes.iter().cloned().collect();
    t.deadline = x.deadline_unix_millis.map(greentic_types::InvocationDeadline::from_unix_millis);
    t.attempt = x.attempt;
    t.idempotency_key = x.idempotency_key.clone();
    t.impersonation = x.impersonation.as_ref().map(|i| greentic_types::Impersonation { actor_id: greentic_types::UserId(i.actor_id.clone()), reason: i.reason.clone() });
    s
}

} // verus!
