//! The Redis cache protocol: which commands are sent, how replies read,
//! how failures are reported and where the server is found.

use vstd::prelude::*;
use vstd::utf8::{decode_utf8, valid_utf8};
use redis::{Client, RedisError};
use crate::config::Config;
use crate::errors::ApiError;
use vstd::string::StringExecFns;
use crate::text::{str_contains, views};

verus! {

/// A reply of the Redis server, as far as the cache reads it.
pub enum CacheReply {
    /// The status reply `OK`.
    Okay,
    /// A simple string reply.
    SimpleString(String),
    /// A binary-safe string reply.
    BulkString(Vec<u8>),
    /// Any other reply (nil, integer, array, ...).
    Other,
}

/// The bytes as text, where they are valid UTF-8 (`String::from_utf8`).
///
/// Trusted: the contract claims that `from_utf8` succeeds exactly on valid
/// UTF-8 and then decodes it.
#[verifier::external_body]
fn utf8_string(bytes: Vec<u8>) -> (r: Option<String>)
    ensures
        r is Some <==> valid_utf8(bytes@),
        r matches Some(s) ==> s@ == decode_utf8(bytes@),
{
    String::from_utf8(bytes).ok()
}

/// The text that the cache makes of a reply.
pub open spec fn reply_text_of(reply: CacheReply) -> Seq<char> {
    match reply {
        CacheReply::Okay => "OK"@,
        CacheReply::SimpleString(s) => s@,
        CacheReply::BulkString(b) => if valid_utf8(b@) {
            decode_utf8(b@)
        } else {
            Seq::empty()
        },
        CacheReply::Other => Seq::empty(),
    }
}

/// The text of a reply: `OK` for the status reply, the string of a string
/// reply (empty where a binary string is not UTF-8), and empty otherwise.
pub fn reply_text(reply: CacheReply) -> (s: String)
    ensures
        s@ == reply_text_of(reply),
{
    match reply {
        CacheReply::Okay => "OK".to_owned(),
        CacheReply::SimpleString(status) => status,
        CacheReply::BulkString(bytes) => match utf8_string(bytes) {
            Some(s) => s,
            None => String::new(),
        },
        CacheReply::Other => String::new(),
    }
}

/// The command that retrieves an entry.
pub fn get_command(key: &str) -> (c: Vec<String>)
    ensures
        views(c@) == seq!["GET"@, key@],
{
    let c = vec!["GET".to_owned(), key.to_owned()];
    assert(views(c@) =~= seq!["GET"@, key@]);
    c
}

/// The command that inserts or updates an entry.
pub fn set_command(key: &str, value: &str) -> (c: Vec<String>)
    ensures
        views(c@) == seq!["SET"@, key@, value@],
{
    let c = vec!["SET".to_owned(), key.to_owned(), value.to_owned()];
    assert(views(c@) =~= seq!["SET"@, key@, value@]);
    c
}

/// The command that deletes an entry.
pub fn delete_command(key: &str) -> (c: Vec<String>)
    ensures
        views(c@) == seq!["DEL"@, key@],
{
    let c = vec!["DEL".to_owned(), key.to_owned()];
    assert(views(c@) =~= seq!["DEL"@, key@]);
    c
}

/// The `Debug` text of a list of strings, such as `["GET", "key"]`.
pub uninterp spec fn debug_list_text(items: Seq<Seq<char>>) -> Seq<char>;

/// The `Debug` text of a list of strings (`format!("{:?}", ..)`).
///
/// Trusted: the contract claims that the text is a function of the strings alone.
#[verifier::external_body]
fn debug_list(items: &Vec<String>) -> (s: String)
    ensures
        s@ == debug_list_text(views(items@)),
{
    format!("{:?}", items)
}

/// The message of a command that could not be sent.
pub open spec fn send_error_text(command: Seq<Seq<char>>) -> Seq<char> {
    "Could not send "@ + debug_list_text(command) + " command to Redis"@
}

/// The error for a command that could not be sent to Redis.
pub fn send_error(command: &Vec<String>) -> (e: ApiError)
    ensures
        e matches ApiError::CacheError(m) && m@ == send_error_text(views(command@)),
{
    let mut message = "Could not send ".to_owned();
    let listed = debug_list(command);
    message.append(listed.as_str());
    message.append(" command to Redis");
    ApiError::CacheError(message)
}

/// Whether `pattern` occurs in `s`.
pub open spec fn has_substring(s: Seq<char>, pattern: Seq<char>) -> bool {
    exists|i: int| 0 <= i <= s.len() - pattern.len() && #[trigger] s.subrange(i, i + pattern.len()) == pattern
}

/// The URL of the Redis server: the configured one, with `redis://` put in
/// front where it has no scheme.
pub open spec fn redis_url_of(configured: Seq<char>) -> Seq<char> {
    if has_substring(configured, "://"@) {
        configured
    } else {
        "redis://"@ + configured
    }
}

/// The URL of the Redis server.
///
/// REDIS_URL is configured without a scheme (e.g. `127.0.0.1:6379`), so one
/// is added when missing.
pub fn redis_url(config: &Config) -> (url: String)
    ensures
        url@ == redis_url_of(config.redis_url@),
{
    if str_contains(config.redis_url.as_str(), "://") {
        config.redis_url.clone()
    } else {
        let mut url = "redis://".to_owned();
        url.append(config.redis_url.as_str());
        url
    }
}

/// Every URL that `redis_url` gives has a scheme, so giving it again changes nothing.
pub proof fn redis_url_idempotent(configured: Seq<char>)
    ensures
        has_substring(redis_url_of(configured), "://"@),
        redis_url_of(redis_url_of(configured)) == redis_url_of(configured),
{
    reveal_strlit("://");
    reveal_strlit("redis://");
    let u = redis_url_of(configured);
    if !has_substring(configured, "://"@) {
        let pattern = "://"@;
        assert(u.subrange(5, 5 + pattern.len() as int) =~= pattern);
        assert(has_substring(u, pattern));
    }
}

#[verifier::external_type_specification]
#[verifier::external_body]
pub struct ExClient(Client);

#[verifier::external_type_specification]
#[verifier::external_body]
pub struct ExRedisError(RedisError);

/// Whether `redis` accepts the text as a connection URL.
pub uninterp spec fn redis_url_accepted(url: Seq<char>) -> bool;

/// The client that `redis::Client::open` makes of an accepted URL.
pub uninterp spec fn client_for(url: Seq<char>) -> Client;

/// A client for the server at `url` (`redis::Client::open`); this parses
/// the URL and opens no connection.
///
/// Trusted: the contract claims that whether the URL is accepted, and the
/// client made of it, are functions of the text alone (`open` only parses).
#[verifier::external_body]
fn client_open(url: String) -> (r: Result<Client, RedisError>)
    ensures
        r is Ok <==> redis_url_accepted(url@),
        r matches Ok(c) ==> c == client_for(url@),
{
    Client::open(url)
}

/// The text of a `redis` error (its `Display`).
///
/// Trusted: nothing is stated of the text.
#[verifier::external_body]
fn redis_error_text(e: &RedisError) -> String {
    e.to_string()
}

/// The client for the configured Redis server, at the URL that `redis_url`
/// gives; an error where `redis` does not accept that URL.
pub fn open_client(config: &Config) -> (r: Result<Client, ApiError>)
    ensures
        r is Ok <==> redis_url_accepted(redis_url_of(config.redis_url@)),
        r matches Ok(c) ==> c == client_for(redis_url_of(config.redis_url@)),
        r matches Err(e) ==> e is CacheError,
{
    let url = redis_url(config);
    match client_open(url) {
        Ok(client) => Ok(client),
        Err(error) => Err(ApiError::CacheError(redis_error_text(&error))),
    }
}

/// Whether the application uses a cache: only where a Redis URL is set.
pub fn uses_cache(config: &Config) -> (r: bool)
    ensures
        r == (config.redis_url@.len() > 0),
{
    !config.redis_url.as_str().is_empty()
}

} // verus!
