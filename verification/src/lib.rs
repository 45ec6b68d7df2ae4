//! Session storage for Greentic runtimes: tenant-context rules, key layout
//! and the command protocol that a Redis-backed store follows.

pub mod error;
pub mod tenant;
pub mod scope;
pub mod data;
pub mod keys;
pub mod outside;
pub mod store;
pub mod protocol;
pub mod session_ops;
pub mod wait_ops;
pub mod model;

use vstd::prelude::*;
use crate::error::{ErrorCode, SessionResult};
use crate::outside::{redis_client_for, redis_open_error, redis_url_accepted};
use crate::store::{RedisSessionStore, default_namespace};

verus! {

/// Configuration for selecting a session backend.
#[derive(Clone, Debug)]
pub enum SessionBackendConfig {
    /// In-memory store for tests or single-node development.
    InMemory,
    /// Redis-backed store using the default namespace.
    RedisUrl(String),
    /// Redis-backed store with a custom namespace prefix.
    RedisUrlWithNamespace { url: String, namespace: String },
}

/// The session store a configuration selects.
pub enum SessionBackend {
    /// The in-memory store.
    InMemory,
    /// A Redis-backed store.
    Redis(RedisSessionStore),
}

/// Creates the session store that `config` selects.
pub fn create_session_store(config: SessionBackendConfig) -> (r: SessionResult<SessionBackend>)
    ensures
        match config {
            SessionBackendConfig::InMemory => r matches Ok(SessionBackend::InMemory),
            SessionBackendConfig::RedisUrl(url) => {
                &&& r is Ok <==> redis_url_accepted(url@)
                &&& r matches Ok(b) ==> b matches SessionBackend::Redis(s) && s.ns() == default_namespace()
                    && s.connector() == redis_client_for(url@)
                &&& r matches Err(e) ==> e.code == ErrorCode::Unavailable && e.message@ == redis_open_error(url@)
            },
            SessionBackendConfig::RedisUrlWithNamespace { url, namespace } => {
                &&& r is Ok <==> redis_url_accepted(url@)
                &&& r matches Ok(b) ==> b matches SessionBackend::Redis(s) && s.ns() == namespace@
                    && s.connector() == redis_client_for(url@)
                &&& r matches Err(e) ==> e.code == ErrorCode::Unavailable && e.message@ == redis_open_error(url@)
            },
        },
{
    match config {
        SessionBackendConfig::InMemory => Ok(SessionBackend::InMemory),
        SessionBackendConfig::RedisUrl(url) => {
            let store = RedisSessionStore::from_url(url.as_str())?;
            Ok(SessionBackend::Redis(store))
        },
        SessionBackendConfig::RedisUrlWithNamespace { url, namespace } => {
            let store = RedisSessionStore::from_url_with_namespace(url.as_str(), namespace)?;
            Ok(SessionBackend::Redis(store))
        },
    }
}

} // verus!
