//! The calls this library makes into outside crates, with the contracts
//! that verified code relies on.

use vstd::prelude::*;
use crate::scope::ReplyScope;
use crate::tenant::opt_view;

verus! {

/// `redis::Client`: parsed connection settings for a Redis server.
#[verifier::external_type_specification]
#[verifier::external_body]
pub struct ExClient(redis::Client);

/// Whether `redis::Client::open` accepts a connection URL. The answer is a
/// property of the URL text alone for a given build of the client (it also
/// depends on which TLS support and socket kinds the build has).
pub uninterp spec fn redis_url_accepted(url: Seq<char>) -> bool;

/// The client that `redis::Client::open` builds from a connection URL: the
/// connection settings it parses out of the URL text.
pub uninterp spec fn redis_client_for(url: Seq<char>) -> redis::Client;

/// The text of the error `redis::Client::open` reports for a URL it refuses.
pub uninterp spec fn redis_open_error(url: Seq<char>) -> Seq<char>;

/// Calls `redis::Client::open`, which parses the URL into connection settings
/// and opens no connection, and hands back the text of its error. Claimed:
/// it succeeds exactly on the URLs that `redis_url_accepted` names; the
/// client is the one `redis_client_for` names for the URL, and the error
/// text the one `redis_open_error` names. Both depend on the URL text alone.
#[verifier::external_body]
pub(crate) fn open_client(url: &str) -> (r: Result<redis::Client, String>)
    ensures
        r is Ok <==> redis_url_accepted(url@),
        r matches Ok(c) ==> c == redis_client_for(url@),
        r matches Err(m) ==> m@ == redis_open_error(url@),
{
    redis::Client::open(url).map_err(|e| e.to_string())
}

/// The hash that `greentic_types::ReplyScope::scope_hash` gives for a scope.
pub uninterp spec fn scope_hash_of(
    conversation: Seq<char>,
    thread: Option<Seq<char>>,
    reply_to: Option<Seq<char>>,
    correlation: Option<Seq<char>>,
) -> Seq<char>;

/// A lowercase hexadecimal digit.
pub open spec fn is_lower_hex_digit(c: char) -> bool {
    ('0' <= c && c <= '9') || ('a' <= c && c <= 'f')
}

/// Sixty-four lowercase hexadecimal digits: the text of a SHA-256 digest.
pub open spec fn is_sha256_hex(s: Seq<char>) -> bool {
    &&& s.len() == 64
    &&& forall|i: int| 0 <= i < 64 ==> #[trigger] is_lower_hex_digit(s[i])
}

/// Calls `greentic_types::ReplyScope::scope_hash` on the same scope. Claimed:
/// the result is the value named by `scope_hash_of` for the scope's fields,
/// and, as the source shows (hex encoding of a SHA-256 digest), it is 64
/// lowercase hexadecimal digits.
#[verifier::external_body]
pub(crate) fn scope_hash(scope: &ReplyScope) -> (r: String)
    ensures
        r@ == scope_hash_of(
            scope.conversation@,
            opt_view(scope.thread),
            opt_view(scope.reply_to),
            opt_view(scope.correlation),
        ),
        is_sha256_hex(r@),
{
    let outside = greentic_types::ReplyScope {
        conversation: scope.conversation.clone(),
        thread: scope.thread.clone(),
        reply_to: scope.reply_to.clone(),
        correlation: scope.correlation.clone(),
    };
    outside.scope_hash()
}

/// The text form of a version-4 UUID: 36 characters, hyphens at positions
/// 8, 13, 18 and 23, lowercase hexadecimal digits elsewhere, the version
/// digit `4` at position 14 and a variant digit of `8`, `9`, `a` or `b` at
/// position 19.
pub open spec fn is_hyphenated_uuid(s: Seq<char>) -> bool {
    &&& s.len() == 36
    &&& forall|i: int|
        0 <= i < 36 ==> if i == 8 || i == 13 || i == 18 || i == 23 {
            s[i] == '-'
        } else {
            is_lower_hex_digit(#[trigger] s[i])
        }
    &&& s[14] == '4'
    &&& (s[19] == '8' || s[19] == '9' || s[19] == 'a' || s[19] == 'b')
}

/// Calls `uuid::Uuid::new_v4` and formats the result with `to_string`.
/// The value is random: claimed is only its shape, the hyphenated lowercase
/// form that the crate's `Display` writes, with the version and variant
/// digits that `new_v4` sets.
#[verifier::external_body]
pub(crate) fn fresh_session_key() -> (r: String)
    ensures
        is_hyphenated_uuid(r@),
{
    uuid::Uuid::new_v4().to_string()
}

} // verus!
