//! The authentication gate in front of the API routes.

use vstd::prelude::*;
use axum_extra::extract::cookie::PrivateCookieJar;
use crate::auth::{decode_jwt, jwt_encoding, jwt_secret, signed_with, unpadded, yields};
use crate::config::Config;
use crate::errors::ApiError;
use crate::session::{get_identity, identity, jar_values};
use crate::text::str_eq;

verus! {

/// The route that is always let through, so that a session can be created.
pub const LOGIN_PATH: &'static str = "/api/v1/auth/login";

/// The claims text of the identity token that the request carries, verified.
///
/// A request without an identity is refused like one with an invalid token.
pub fn session_claims(jar: &PrivateCookieJar, config: &Config) -> (r: Result<String, ApiError>)
    ensures
        identity(*jar, *config) is None ==> r is Err,
        r matches Ok(c) ==> identity(*jar, *config) matches Some(t)
            && signed_with(t, jwt_secret(*config)) && yields(t, jwt_secret(*config), c@),
        r matches Err(e) ==> e is CannotDecodeJwtToken,
{
    match get_identity(jar, config) {
        Some(token) => decode_jwt(token.as_str(), config),
        None => {
            let empty = "";
            proof {
                reveal_strlit("");
            }
            decode_jwt(empty, config)
        },
    }
}

/// A session started by remembering a token created from claims text
/// gives those claims back, wherever the token still verifies.
pub proof fn session_round_trip(
    before: PrivateCookieJar,
    after: PrivateCookieJar,
    config: Config,
    claims: Seq<char>,
    token: Seq<char>,
    decoded: Seq<char>,
)
    requires
        jwt_encoding(claims, jwt_secret(config)) == Some(token),
        unpadded(claims),
        jar_values(after) == jar_values(before).insert(config.session_name@, token),
        identity(after, config) matches Some(t) && yields(t, jwt_secret(config), decoded),
    ensures
        decoded == claims,
{
}

/// The claims text of the identity token, where the request carries one.
pub fn identity_claims(jar: &PrivateCookieJar, config: &Config) -> (r: Option<Result<String, ApiError>>)
    ensures
        r is None <==> identity(*jar, *config) is None,
        r matches Some(Ok(c)) ==> identity(*jar, *config) matches Some(t)
            && signed_with(t, jwt_secret(*config)) && yields(t, jwt_secret(*config), c@),
        r matches Some(Err(e)) ==> e is CannotDecodeJwtToken,
{
    match get_identity(jar, config) {
        Some(token) => Some(decode_jwt(token.as_str(), config)),
        None => None,
    }
}

/// Whether a request is turned away with `401 Unauthorized`: it carries no
/// valid identity and is not for the login route.
pub open spec fn turned_away(logged_in: bool, path: Seq<char>) -> bool {
    !logged_in && path != LOGIN_PATH@
}

/// Whether a request is turned away with `401 Unauthorized`.
pub fn unauthorized(logged_in: bool, path: &str) -> (r: bool)
    ensures
        r == turned_away(logged_in, path@),
{
    !logged_in && !str_eq(path, LOGIN_PATH)
}

/// The login route is never turned away, and neither is a request that
/// carries a valid identity; every other request is.
pub proof fn gate_law(logged_in: bool, path: Seq<char>)
    ensures
        path == LOGIN_PATH@ ==> !turned_away(logged_in, path),
        logged_in ==> !turned_away(logged_in, path),
        !logged_in && path != LOGIN_PATH@ ==> turned_away(logged_in, path),
{
}

} // verus!
