//! Settings that the application reads from its environment at start-up.

use vstd::prelude::*;

verus! {

/// Application settings; read from the environment by the binary.
pub struct Config {
    pub auth_salt: String,
    /// Lifetime of a JSON web token, in hours.
    pub jwt_expiration: i64,
    pub jwt_key: String,
    pub redis_url: String,
    pub server: String,
    pub session_key: String,
    pub session_name: String,
    pub session_secure: bool,
    /// Lifetime of the identity cookie, in minutes.
    pub session_timeout: i64,
}

} // verus!
