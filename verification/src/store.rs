//! The Redis-backed session store: its configuration, constructors and the
//! keys it derives from its namespace.

use vstd::prelude::*;
use crate::data::{
    SessionRecord, decode_failure, decode_session, decoded_session, encode_session, encoded_session,
    is_valid_record, round_trips,
};
use crate::error::{ErrorCode, SessionResult, codec_error, store_error};
use crate::protocol::codec_error_view;
use crate::keys::{
    make_scope_wait_key, make_session_entry_key, make_user_waits_key, scope_wait_key,
    session_entry_key, user_waits_key,
};
use crate::outside::{
    open_client, redis_client_for, redis_open_error, redis_url_accepted, scope_hash, scope_hash_of,
};
use crate::scope::ReplyScope;
use crate::tenant::TenantCtx;

verus! {

/// The namespace prefix used when none is given.
pub open spec fn default_namespace() -> Seq<char> {
    "greentic:session"@
}

/// The hash of a reply scope, as `scope_hash` names it.
pub open spec fn scope_hash_view(scope: crate::scope::ReplyScopeView) -> Seq<char> {
    scope_hash_of(scope.conversation, scope.thread, scope.reply_to, scope.correlation)
}

/// Redis-backed session store.
///
/// Constructors accept connection URLs or configuration strings only.
pub struct RedisSessionStore {
    client: redis::Client,
    namespace: String,
}

impl RedisSessionStore {
    /// The namespace prefix of every key this store writes.
    pub closed spec fn ns(&self) -> Seq<char> {
        self.namespace@
    }

    /// The client this store connects through.
    pub closed spec fn connector(&self) -> redis::Client {
        self.client
    }

    /// Creates a store using a Redis URL and the default namespace prefix.
    pub fn from_url(url: &str) -> (r: SessionResult<Self>)
        ensures
            r is Ok <==> redis_url_accepted(url@),
            r matches Ok(s) ==> s.ns() == default_namespace() && s.connector() == redis_client_for(url@),
            r matches Err(e) ==> e.code == ErrorCode::Unavailable && e.message@ == redis_open_error(url@),
    {
        match open_client(url) {
            Ok(client) => Ok(Self::from_client_with_namespace(client, String::from_str("greentic:session"))),
            Err(m) => Err(store_error(m)),
        }
    }

    /// Creates a store using a Redis URL and a custom namespace prefix.
    pub fn from_url_with_namespace(url: &str, namespace: String) -> (r: SessionResult<Self>)
        ensures
            r is Ok <==> redis_url_accepted(url@),
            r matches Ok(s) ==> s.ns() == namespace@ && s.connector() == redis_client_for(url@),
            r matches Err(e) ==> e.code == ErrorCode::Unavailable && e.message@ == redis_open_error(url@),
    {
        match open_client(url) {
            Ok(client) => Ok(Self::from_client_with_namespace(client, namespace)),
            Err(m) => Err(store_error(m)),
        }
    }

    /// Creates a store from an opened client and a namespace prefix.
    pub(crate) fn from_client_with_namespace(client: redis::Client, namespace: String) -> (r: Self)
        ensures
            r.ns() == namespace@,
            r.connector() == client,
    {
        RedisSessionStore { client, namespace }
    }

    /// The client this store connects through, for the code that performs
    /// the store's commands.
    pub fn client(&self) -> (r: &redis::Client)
        ensures
            *r == self.connector(),
    {
        &self.client
    }

    /// The namespace prefix of every key this store writes.
    pub fn namespace(&self) -> (r: &String)
        ensures
            r@ == self.ns(),
    {
        &self.namespace
    }

    /// The key that holds the payload of session `key`.
    pub fn session_entry_key(&self, key: &str) -> (r: String)
        ensures
            r@ == session_entry_key(self.ns(), key@),
    {
        make_session_entry_key(self.namespace.as_str(), key)
    }

    /// The key of the set of sessions that `user` waits on in `ctx`.
    pub fn user_waits_key(&self, ctx: &TenantCtx, user: &str) -> (r: String)
        ensures
            r@ == user_waits_key(self.ns(), ctx@, user@),
    {
        make_user_waits_key(self.namespace.as_str(), ctx, user)
    }

    /// The key that names the session answering `scope` for `user` in `ctx`.
    pub fn scope_wait_key(&self, ctx: &TenantCtx, user: &str, scope: &ReplyScope) -> (r: String)
        ensures
            r@ == scope_wait_key(self.ns(), ctx@, user@, scope_hash_view(scope@)),
    {
        let hash = scope_hash(scope);
        make_scope_wait_key(self.namespace.as_str(), ctx, user, hash.as_str())
    }
    /// Encodes a session as the JSON text stored for it. Encoding never
    /// fails, and a valid record reads back from its text unchanged.
    pub fn serialize(data: &SessionRecord) -> (r: SessionResult<String>)
        ensures
            r matches Ok(p) && p@ == encoded_session(data@),
            is_valid_record(data@) ==> round_trips(data@, encoded_session(data@)),
    {
        Ok(encode_session(data))
    }

    /// Decodes a stored payload; a payload that does not parse is an
    /// internal error carrying the parser's message. What decodes is a
    /// valid record.
    pub fn deserialize(payload: &str) -> (r: SessionResult<SessionRecord>)
        ensures
            r is Ok <==> decoded_session(payload@) is Some,
            r matches Ok(d) ==> decoded_session(payload@) == Some(d@) && is_valid_record(d@),
            r matches Err(e) ==> e@ == codec_error_view(decode_failure(payload@)),
    {
        match decode_session(payload) {
            Ok(d) => Ok(d),
            Err(m) => Err(codec_error(m)),
        }
    }
}

} // verus!
