//! The private (encrypted) identity cookie: remembering, forgetting and
//! reading back the session token.

use vstd::prelude::*;
use axum::http::header::COOKIE;
use axum::http::{HeaderMap, HeaderValue};
use axum_extra::extract::cookie::{Cookie, Key, PrivateCookieJar};
use crate::auth::{create_jwt, jwt_encoding, jwt_secret};
use crate::config::Config;
use crate::errors::ApiError;
use crate::text::views;
use vstd::utf8::encode_utf8;

verus! {

#[verifier::external_type_specification]
#[verifier::external_body]
pub struct ExKey(Key);

#[verifier::external_type_specification]
#[verifier::external_body]
#[verifier::reject_recursive_types(K)]
pub struct ExPrivateCookieJar<K>(PrivateCookieJar<K>);

/// A cookie as this library builds it before handing it to a jar.
pub struct SessionCookie {
    pub name: String,
    pub value: String,
    pub path: String,
    pub secure: Option<bool>,
    pub http_only: Option<bool>,
    pub max_age_minutes: Option<i64>,
}

/// The attributes of a `Set-Cookie` header that a jar will send.
///
/// A cookie that is added carries its sealed (encrypted, non-empty) value
/// and no expiry; a removal cookie carries an empty value, `Max-Age=0` and
/// an expiry a year before the moment of removal.
pub ghost struct SentCookie {
    pub path: Seq<char>,
    pub secure: Option<bool>,
    pub http_only: Option<bool>,
    pub max_age_seconds: Option<int>,
    pub empty_value: bool,
    pub expires_in_past: bool,
}

/// What `get` of the jar gives back: cookie name to (decrypted) value.
pub uninterp spec fn jar_values(jar: PrivateCookieJar) -> Map<Seq<char>, Seq<char>>;

/// The cookies that the jar will send back in `Set-Cookie` headers, by name.
pub uninterp spec fn jar_sent(jar: PrivateCookieJar) -> Map<Seq<char>, SentCookie>;

/// The names of the cookies that the request carried and that decrypted
/// under the jar's key.
pub uninterp spec fn jar_received(jar: PrivateCookieJar) -> Set<Seq<char>>;

/// The key that `Key::derive_from` makes of a master key.
pub uninterp spec fn derived_key(master: Seq<u8>) -> Key;

/// What the private cookies of a request's `Cookie` headers decrypt to under
/// the key derived from `master`: name to value, the last cookie of a name
/// winning; cookies that do not decrypt are left out.
pub uninterp spec fn received_values(cookie_headers: Seq<Seq<char>>, master: Seq<u8>) -> Map<
    Seq<char>,
    Seq<char>,
>;

/// No cookies.
pub open spec fn no_cookies() -> Map<Seq<char>, Seq<char>> {
    Map::empty()
}

/// No `Set-Cookie` headers.
pub open spec fn nothing_sent() -> Map<Seq<char>, SentCookie> {
    Map::empty()
}

/// The largest plaintext and associated data that AES-256-GCM seals: 2^36 bytes.
pub open spec fn aead_limit() -> nat {
    0x10_0000_0000
}

/// A lifetime, in minutes, that converts to seconds.
pub open spec fn lifetime_converts(max_age_minutes: Option<i64>) -> bool {
    max_age_minutes matches Some(m) ==> i64::MIN <= 60 * m <= i64::MAX
}

/// A cookie that the jar can seal and whose lifetime converts to seconds.
pub open spec fn sealable(c: SessionCookie) -> bool {
    &&& encode_utf8(c.value@).len() <= aead_limit()
    &&& encode_utf8(c.name@).len() <= aead_limit()
    &&& lifetime_converts(c.max_age_minutes)
}

/// The `Set-Cookie` attributes of a cookie that is added.
pub open spec fn added_form(c: SessionCookie) -> SentCookie {
    SentCookie {
        path: c.path@,
        secure: c.secure,
        http_only: c.http_only,
        max_age_seconds: match c.max_age_minutes {
            Some(m) => Some(60 * m),
            None => None,
        },
        empty_value: false,
        expires_in_past: false,
    }
}

/// The `Set-Cookie` attributes that tell a browser to drop a cookie.
pub open spec fn removal_form(c: SessionCookie) -> SentCookie {
    SentCookie {
        path: c.path@,
        secure: c.secure,
        http_only: c.http_only,
        max_age_seconds: Some(0),
        empty_value: true,
        expires_in_past: true,
    }
}

/// Derives the cookie key from a master key (`Key::derive_from`).
///
/// Trusted: `derive_from` panics on a master key shorter than 32 bytes,
/// which `requires` excludes; the contract claims that the key is a
/// function of the master key alone (HKDF expansion).
#[verifier::external_body]
fn derive_key(master: &[u8]) -> (k: Key)
    requires
        master@.len() >= 32,
    ensures
        k == derived_key(master@),
{
    Key::derive_from(master)
}

/// Whether a text can stand as an HTTP header value as `to_str` gives it:
/// tabs and visible ASCII only.
pub open spec fn header_text(s: Seq<char>) -> bool {
    forall|i: int| 0 <= i < s.len() ==> #[trigger] s[i] == '\t' || (' ' <= s[i] && s[i] <= '~')
}

/// Whether every text of a list can stand as an HTTP header value.
pub open spec fn header_texts(v: Seq<String>) -> bool {
    forall|i: int| 0 <= i < v.len() ==> header_text(#[trigger] v[i]@)
}

/// The jar of a request that carries these `Cookie` headers
/// (`PrivateCookieJar::from_headers` with the key derived from `master`).
///
/// Trusted: the contract claims that the jar holds what the private cookies
/// decrypt to (a function of the headers and the master key alone), that it
/// counts those names as received, and that it has nothing to send yet.
#[verifier::external_body]
fn jar_from_cookie_headers(cookie_headers: &Vec<String>, master: &[u8]) -> (r: PrivateCookieJar)
    requires
        master@.len() >= 32,
        header_texts(cookie_headers@),
    ensures
        jar_values(r) == received_values(views(cookie_headers@), master@),
        cookie_headers@.len() == 0 ==> jar_values(r) == no_cookies(),
        jar_received(r) == received_values(views(cookie_headers@), master@).dom(),
        jar_sent(r) == nothing_sent(),
{
    let mut headers = HeaderMap::new();
    for h in cookie_headers {
        headers.append(COOKIE, HeaderValue::from_str(h).unwrap());
    }
    PrivateCookieJar::from_headers(&headers, Key::derive_from(master))
}

/// Seals `cookie` and adds it to the jar (`PrivateCookieJar::add`).
///
/// Trusted: the contract claims that afterwards `get` of the cookie's name
/// gives back its value (the jar decrypts what it encrypted with its own
/// key), that the other names are untouched, and that the cookie is sent
/// with the given attributes, replacing any cookie of that name.
#[verifier::external_body]
fn jar_add(jar: PrivateCookieJar, cookie: SessionCookie) -> (r: PrivateCookieJar)
    requires
        sealable(cookie),
    ensures
        jar_values(r) == jar_values(jar).insert(cookie.name@, cookie.value@),
        jar_sent(r) == jar_sent(jar).insert(cookie.name@, added_form(cookie)),
        jar_received(r) == jar_received(jar),
{
    let mut c = Cookie::new(cookie.name, cookie.value);
    c.set_path(cookie.path);
    c.set_secure(cookie.secure);
    c.set_http_only(cookie.http_only);
    c.set_max_age(cookie.max_age_minutes.map(time::Duration::minutes));
    jar.add(c)
}

/// Removes the cookie of `cookie`'s name from the jar (`PrivateCookieJar::remove`).
///
/// Trusted: the contract claims that afterwards `get` of that name gives
/// nothing and the other names are untouched; that where the request
/// carried the cookie a removal cookie with the given path and flags is
/// sent, and that otherwise nothing of that name is sent.
#[verifier::external_body]
fn jar_remove(jar: PrivateCookieJar, cookie: SessionCookie) -> (r: PrivateCookieJar)
    requires
        lifetime_converts(cookie.max_age_minutes),
    ensures
        jar_values(r) == jar_values(jar).remove(cookie.name@),
        jar_received(jar).contains(cookie.name@) ==> jar_sent(r) == jar_sent(jar).insert(
            cookie.name@,
            removal_form(cookie),
        ),
        !jar_received(jar).contains(cookie.name@) ==> jar_sent(r) == jar_sent(jar).remove(
            cookie.name@,
        ),
        jar_received(r) == jar_received(jar),
{
    let mut c = Cookie::new(cookie.name, cookie.value);
    c.set_path(cookie.path);
    c.set_secure(cookie.secure);
    c.set_http_only(cookie.http_only);
    c.set_max_age(cookie.max_age_minutes.map(time::Duration::minutes));
    jar.remove(c)
}

/// The value of the cookie named `name`, decrypted (`PrivateCookieJar::get`).
///
/// Trusted: the contract claims that the result is the jar's value for the name.
#[verifier::external_body]
fn jar_get(jar: &PrivateCookieJar, name: &str) -> (r: Option<String>)
    ensures
        r matches Some(v) ==> jar_values(*jar).contains_key(name@) && v@ == jar_values(*jar)[name@],
        r is None ==> !jar_values(*jar).contains_key(name@),
{
    jar.get(name).map(|c| c.value().to_string())
}

/// The master key that the identity key is derived from: the bytes of the
/// configured session key.
pub open spec fn session_master(config: Config) -> Seq<u8> {
    encode_utf8(config.session_key@)
}

/// Gets the key used to encrypt/decrypt the private identity cookie,
/// derived from the configured session key.
pub fn get_identity_key(config: &Config) -> (k: Key)
    requires
        session_master(*config).len() >= 32,
    ensures
        k == derived_key(session_master(*config)),
{
    derive_key(config.session_key.as_str().as_bytes())
}

/// The jar of a request that carries these `Cookie` header values, keyed
/// with the identity key.
pub fn request_jar(cookie_headers: &Vec<String>, config: &Config) -> (r: PrivateCookieJar)
    requires
        session_master(*config).len() >= 32,
        header_texts(cookie_headers@),
    ensures
        jar_values(r) == received_values(views(cookie_headers@), session_master(*config)),
        cookie_headers@.len() == 0 ==> jar_values(r) == no_cookies(),
        jar_received(r) == jar_values(r).dom(),
        jar_sent(r) == nothing_sent(),
{
    jar_from_cookie_headers(cookie_headers, config.session_key.as_str().as_bytes())
}

/// The identity cookie that `remember` stores.
pub open spec fn identity_cookie(config: Config) -> SentCookie {
    SentCookie {
        path: "/"@,
        secure: Some(config.session_secure),
        http_only: Some(true),
        max_age_seconds: Some(60 * config.session_timeout),
        empty_value: false,
        expires_in_past: false,
    }
}

/// What `remember` needs of the settings and the token to seal a cookie.
pub open spec fn can_remember(config: Config, jwt: Seq<char>) -> bool {
    &&& encode_utf8(jwt).len() <= aead_limit()
    &&& encode_utf8(config.session_name@).len() <= aead_limit()
    &&& i64::MIN <= 60 * config.session_timeout <= i64::MAX
}

/// Remember an identity by storing the JWT in a private (encrypted) cookie.
///
/// The returned jar must be returned from the handler for the cookie to be set.
pub fn remember(jar: PrivateCookieJar, jwt: String, config: &Config) -> (r: PrivateCookieJar)
    requires
        can_remember(*config, jwt@),
    ensures
        jar_values(r) == jar_values(jar).insert(config.session_name@, jwt@),
        jar_sent(r) == jar_sent(jar).insert(config.session_name@, identity_cookie(*config)),
        jar_received(r) == jar_received(jar),
        jar_sent(r)[config.session_name@].secure == Some(config.session_secure),
        jar_sent(r)[config.session_name@].http_only == Some(true),
        jar_sent(r)[config.session_name@].path == "/"@,
        jar_sent(r)[config.session_name@].max_age_seconds == Some(60 * config.session_timeout),
        !jar_sent(r)[config.session_name@].empty_value,
{
    let cookie = SessionCookie {
        name: config.session_name.clone(),
        value: jwt,
        path: "/".to_owned(),
        secure: Some(config.session_secure),
        http_only: Some(true),
        max_age_minutes: Some(config.session_timeout),
    };
    jar_add(jar, cookie)
}

/// What the settings must allow for a session cookie to be sealed.
pub open spec fn session_settings_ok(config: Config) -> bool {
    &&& encode_utf8(config.session_name@).len() <= aead_limit()
    &&& i64::MIN <= 60 * config.session_timeout <= i64::MAX
}

/// Creates the token of the claims text and remembers it: the jar then
/// holds, under the session name, the token made of exactly these claims.
///
/// Fails where the text is not JSON, and where the token is too long to be
/// sealed in a cookie.
pub fn start_session(jar: PrivateCookieJar, claims: &str, config: &Config) -> (r: Result<
    PrivateCookieJar,
    ApiError,
>)
    requires
        session_settings_ok(*config),
    ensures
        r is Ok <==> (jwt_encoding(claims@, jwt_secret(*config)) matches Some(t) && encode_utf8(t).len()
            <= aead_limit()),
        r matches Ok(j) ==> jwt_encoding(claims@, jwt_secret(*config)) matches Some(t) && jar_values(j)
            == jar_values(jar).insert(config.session_name@, t) && jar_sent(j) == jar_sent(jar).insert(
            config.session_name@,
            identity_cookie(*config),
        ) && jar_received(j) == jar_received(jar),
        r matches Err(e) ==> e is CannotEncodeJwtToken,
{
    let token = match create_jwt(claims, config) {
        Ok(token) => token,
        Err(e) => return Err(e),
    };
    let n = token.as_str().as_bytes().len();
    if n as u64 > 0x10_0000_0000u64 {
        return Err(ApiError::CannotEncodeJwtToken("the token is too long to seal in a cookie".to_owned()));
    }
    Ok(remember(jar, token, config))
}

/// The removal cookie that `forget` sends when the request carried one.
pub open spec fn forgotten_cookie() -> SentCookie {
    SentCookie {
        path: "/"@,
        secure: None,
        http_only: Some(true),
        max_age_seconds: Some(0),
        empty_value: true,
        expires_in_past: true,
    }
}

/// Forget an identity by removing the private identity cookie.
///
/// Where the request carried the identity cookie, sealed under the jar's
/// key, a removal cookie is sent so that the browser drops it; a cookie of
/// that name that did not decrypt is not counted as received.
pub fn forget(jar: PrivateCookieJar, config: &Config) -> (r: PrivateCookieJar)
    ensures
        jar_values(r) == jar_values(jar).remove(config.session_name@),
        jar_received(jar).contains(config.session_name@) ==> jar_sent(r) == jar_sent(jar).insert(
            config.session_name@,
            forgotten_cookie(),
        ),
        !jar_received(jar).contains(config.session_name@) ==> jar_sent(r) == jar_sent(jar).remove(
            config.session_name@,
        ),
        jar_received(r) == jar_received(jar),
        jar_received(jar).contains(config.session_name@) ==> {
            &&& jar_sent(r)[config.session_name@].path == "/"@
            &&& jar_sent(r)[config.session_name@].max_age_seconds == Some(0int)
            &&& jar_sent(r)[config.session_name@].empty_value
            &&& jar_sent(r)[config.session_name@].expires_in_past
        },
{
    let cookie = SessionCookie {
        name: config.session_name.clone(),
        value: String::new(),
        path: "/".to_owned(),
        secure: None,
        http_only: Some(true),
        max_age_minutes: None,
    };
    jar_remove(jar, cookie)
}

/// The value stored under `name`, if any.
pub open spec fn lookup(values: Map<Seq<char>, Seq<char>>, name: Seq<char>) -> Option<Seq<char>> {
    if values.contains_key(name) {
        Some(values[name])
    } else {
        None
    }
}

/// The identity token that the jar holds.
pub open spec fn identity(jar: PrivateCookieJar, config: Config) -> Option<Seq<char>> {
    lookup(jar_values(jar), config.session_name@)
}

/// The view of an optional string.
pub open spec fn opt_view(s: Option<String>) -> Option<Seq<char>> {
    match s {
        Some(v) => Some(v@),
        None => None,
    }
}

/// Pull the JWT out of the private identity cookie, if one was sent.
pub fn get_identity(jar: &PrivateCookieJar, config: &Config) -> (r: Option<String>)
    ensures
        opt_view(r) == identity(*jar, *config),
{
    jar_get(jar, config.session_name.as_str())
}

/// After `remember`, the jar gives back the token that it remembered.
pub proof fn identity_after_remember(before: PrivateCookieJar, after: PrivateCookieJar, config: Config, jwt: Seq<char>)
    requires
        jar_values(after) == jar_values(before).insert(config.session_name@, jwt),
    ensures
        identity(after, config) == Some(jwt),
{
}

/// The identity of a request's jar is what the request's identity cookie
/// decrypts to under the key derived from the session key.
pub proof fn identity_of_request(jar: PrivateCookieJar, cookie_headers: Seq<Seq<char>>, config: Config)
    requires
        jar_values(jar) == received_values(cookie_headers, session_master(config)),
    ensures
        identity(jar, config) == lookup(
            received_values(cookie_headers, session_master(config)),
            config.session_name@,
        ),
{
}

/// A request without `Cookie` headers carries no identity.
pub proof fn no_cookies_no_identity(jar: PrivateCookieJar, config: Config)
    requires
        jar_values(jar) == no_cookies(),
    ensures
        identity(jar, config) is None,
{
}

/// The identity cookie follows the settings: it is sent with the
/// configured `Secure` flag and lifetime (in seconds), always `HttpOnly`
/// and for the whole site (`Path=/`).
pub proof fn identity_cookie_follows_config(
    before: PrivateCookieJar,
    after: PrivateCookieJar,
    config: Config,
)
    requires
        jar_sent(after) == jar_sent(before).insert(config.session_name@, identity_cookie(config)),
    ensures
        jar_sent(after)[config.session_name@].secure == Some(config.session_secure),
        jar_sent(after)[config.session_name@].http_only == Some(true),
        jar_sent(after)[config.session_name@].path == "/"@,
        jar_sent(after)[config.session_name@].max_age_seconds == Some(60 * config.session_timeout),
{
}

/// The removal cookie that `forget` sends targets the very path at which
/// `remember` set the identity cookie, and it expires the cookie at once.
pub proof fn forget_removes_what_remember_set(config: Config)
    ensures
        forgotten_cookie().path == identity_cookie(config).path,
        forgotten_cookie().path == "/"@,
        forgotten_cookie().http_only == identity_cookie(config).http_only,
        forgotten_cookie().max_age_seconds == Some(0int),
        forgotten_cookie().empty_value && forgotten_cookie().expires_in_past,
{
}

/// After `forget`, the jar gives back no token.
pub proof fn identity_after_forget(before: PrivateCookieJar, after: PrivateCookieJar, config: Config)
    requires
        jar_values(after) == jar_values(before).remove(config.session_name@),
    ensures
        identity(after, config) is None,
{
}

/// Remembering or forgetting the identity leaves every other cookie as it was.
pub proof fn other_cookies_untouched(
    before: PrivateCookieJar,
    after: PrivateCookieJar,
    config: Config,
    jwt: Seq<char>,
    other: Seq<char>,
)
    requires
        other != config.session_name@,
        jar_values(after) == jar_values(before).insert(config.session_name@, jwt)
            || jar_values(after) == jar_values(before).remove(config.session_name@),
    ensures
        lookup(jar_values(after), other) == lookup(jar_values(before), other),
{
}

} // verus!
