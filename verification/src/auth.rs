//! Password hashing, identity claims and JSON web tokens.

use vstd::prelude::*;
use vstd::arithmetic::power::pow;
use vstd::utf8::encode_utf8;
use jsonwebtoken::{decode, encode, DecodingKey, EncodingKey, Header, Validation};
use jsonwebtoken::errors::Error as JwtError;
use serde_json::value::RawValue;
use uuid::Uuid;
use crate::config::Config;
use crate::errors::ApiError;
pub use crate::session::{forget, get_identity, get_identity_key, remember};
use crate::hex::{
    hex_digit, hex_lower, is_lower_hex_char, lemma_hex_lower_alphabet, lemma_hex_lower_injective,
    to_hex_lower,
};

verus! {

#[verifier::external_type_specification]
#[verifier::external_body]
pub struct ExJwtError(JwtError);

// ---------------------------------------------------------------------------
// Password hashing
// ---------------------------------------------------------------------------

/// The 32-byte Argon2i digest (default parameters) of a password and salt.
pub uninterp spec fn argon2i_digest(password: Seq<char>, salt: Seq<char>) -> Seq<u8>;

/// What Argon2 accepts: a salt of 8 to 2^32 - 1 bytes and a password of at
/// most 2^32 - 1 bytes.
pub open spec fn hashable(password: Seq<char>, salt: Seq<char>) -> bool {
    &&& 8 <= encode_utf8(salt).len() <= 0xffff_ffff
    &&& encode_utf8(password).len() <= 0xffff_ffff
}

/// Argon2i with the default parameters (`argon2rs::argon2i_simple`).
///
/// Trusted: the contract claims that the result is a function of the password
/// and the salt alone and has 32 bytes; `argon2i_simple` asserts the length
/// bounds that `requires` states.
#[verifier::external_body]
fn argon2i(password: &str, salt: &str) -> (digest: Vec<u8>)
    requires
        hashable(password@, salt@),
    ensures
        digest@ == argon2i_digest(password@, salt@),
        digest@.len() == 32,
{
    argon2rs::argon2i_simple(password, salt).to_vec()
}

/// The stored form of a password: its Argon2i digest in lower-case hex.
pub open spec fn password_hash(password: Seq<char>, salt: Seq<char>) -> Seq<char> {
    hex_lower(argon2i_digest(password, salt))
}

/// Encrypt a password
///
/// Uses the argon2i algorithm; the salt is the configured `auth_salt`.
pub fn hash(password: &str, config: &Config) -> (hashed: String)
    requires
        hashable(password@, config.auth_salt@),
    ensures
        hashed@ == password_hash(password@, config.auth_salt@),
        hashed@.len() == 64,
        forall|i: int| 0 <= i < hashed@.len() ==> is_lower_hex_char(#[trigger] hashed@[i]),
{
    let digest = argon2i(password, config.auth_salt.as_str());
    proof {
        lemma_hex_lower_alphabet(digest@);
    }
    to_hex_lower(digest.as_slice())
}

/// Two passwords hash alike exactly where their Argon2i digests agree.
pub proof fn hash_matches_iff_digest_matches(p1: Seq<char>, p2: Seq<char>, salt: Seq<char>)
    ensures
        password_hash(p1, salt) == password_hash(p2, salt) <==> argon2i_digest(p1, salt)
            == argon2i_digest(p2, salt),
{
    if password_hash(p1, salt) == password_hash(p2, salt) {
        lemma_hex_lower_injective(argon2i_digest(p1, salt), argon2i_digest(p2, salt));
    }
}

// ---------------------------------------------------------------------------
// Identity claims
// ---------------------------------------------------------------------------

/// The earliest UNIX time that a date of `chrono` reaches (early in year -262143).
pub open spec fn min_timestamp() -> int {
    -8334601228800
}

/// The latest UNIX time that a date of `chrono` reaches (year 262142).
pub open spec fn max_timestamp() -> int {
    8210266876799
}

/// The most seconds that a `chrono::TimeDelta` holds: i64::MAX milliseconds.
pub open spec fn max_delta_seconds() -> int {
    9223372036854775
}

/// The expiry of a token issued at `now` that lives `hours` hours.
pub open spec fn expiry(now: int, hours: int) -> int {
    now + 3600 * hours
}

/// Whether `hours` is a lifetime that `chrono` can add to `now`.
pub open spec fn valid_lifetime(now: int, hours: int) -> bool {
    &&& -max_delta_seconds() <= 3600 * hours <= max_delta_seconds()
    &&& min_timestamp() <= expiry(now, hours) <= max_timestamp()
}

/// The current UNIX time in seconds (`chrono::Utc::now().timestamp()`).
///
/// Trusted: the contract claims only that the time is not before 1970 and
/// lies in `chrono`'s range (`Utc::now` panics otherwise).
#[verifier::external_body]
fn utc_now() -> (now: i64)
    ensures
        0 <= now <= max_timestamp(),
{
    chrono::Utc::now().timestamp()
}

/// The claims that a JSON web token carries.
pub struct PrivateClaim {
    pub user_id: u128,
    pub email: String,
    /// When the claim expires, in UNIX seconds.
    pub exp: i64,
}

impl PrivateClaim {
    /// A claim issued at UNIX time `now` that lives `hours` hours.
    pub fn issued_at(user_id: u128, email: String, now: i64, hours: i64) -> (c: Self)
        requires
            valid_lifetime(now as int, hours as int),
        ensures
            c.user_id == user_id,
            c.email == email,
            c.exp == expiry(now as int, hours as int),
            c.exp == now + 3600 * hours,
    {
        PrivateClaim { user_id, email, exp: now + 3600 * hours }
    }

    /// The claim issued at UNIX time `now` that lives `hours` hours, or
    /// `None` where `chrono` cannot add that lifetime to that time.
    pub fn claim_at(user_id: u128, email: String, now: i64, hours: i64) -> (c: Option<Self>)
        ensures
            is_claim_at(c, user_id, email, now as int, hours as int),
            c matches Some(c) ==> c.exp == now + 3600 * hours && c.user_id == user_id && c.email
                == email,
            -9223372036854775 <= 3600 * hours <= 9223372036854775 && -8334601228800 <= now + 3600
                * hours <= 8210266876799 ==> c is Some,
    {
        if hours < -2562047788015 || hours > 2562047788015 {
            assert(!valid_lifetime(now as int, hours as int));
            return None;
        }
        let exp: i128 = now as i128 + 3600 * (hours as i128);
        if exp > 8210266876799 || exp < -8334601228800 {
            assert(!valid_lifetime(now as int, hours as int));
            return None;
        }
        Some(Self::issued_at(user_id, email, now, hours))
    }

    /// A claim issued now that lives `jwt_expiration` hours: what `claim_at`
    /// gives for the time that the clock reads.
    pub fn new(user_id: u128, email: String, config: &Config) -> (c: Option<Self>)
        ensures
            exists|now: int|
                0 <= now <= max_timestamp() && #[trigger] is_claim_at(
                    c,
                    user_id,
                    email,
                    now,
                    config.jwt_expiration as int,
                ),
    {
        let now = utc_now();
        let c = Self::claim_at(user_id, email, now, config.jwt_expiration);
        assert(is_claim_at(c, user_id, email, now as int, config.jwt_expiration as int));
        c
    }
}

/// A claim lives exactly its lifetime: its expiry lies `3600 * hours`
/// seconds after its issue, so lifetimes add up and longer lifetimes end
/// later.
pub proof fn expiry_law(now: int, h1: int, h2: int)
    ensures
        expiry(now, h1) - now == 3600 * h1,
        expiry(expiry(now, h1), h2) == expiry(now, h1 + h2),
        h1 < h2 ==> expiry(now, h1) < expiry(now, h2),
{
}

/// Whether `c` is the claim for `user_id` and `email` issued at `now` that
/// lives `hours` hours: present exactly where the lifetime can be added.
pub open spec fn is_claim_at(c: Option<PrivateClaim>, user_id: u128, email: String, now: int, hours: int) -> bool {
    &&& (c is Some <==> valid_lifetime(now, hours))
    &&& (c matches Some(c) ==> c.user_id == user_id && c.email == email && c.exp == expiry(now, hours))
}

// ---------------------------------------------------------------------------
// JSON web tokens
// ---------------------------------------------------------------------------

/// The token that `jsonwebtoken::encode` makes, with the default header
/// (HS256), of the JSON claims text signed with the secret; `None` where the
/// text is not JSON.
pub uninterp spec fn jwt_encoding(claims: Seq<char>, secret: Seq<u8>) -> Option<Seq<char>>;

/// Whether `c` is white space in JSON.
pub open spec fn is_json_space(c: char) -> bool {
    c == ' ' || c == '\t' || c == '\n' || c == '\r'
}

/// A JSON text without white space around it.
pub open spec fn unpadded(text: Seq<char>) -> bool {
    text.len() > 0 && !is_json_space(text[0]) && !is_json_space(text.last())
}

/// The HS256 signature, base64url-encoded without padding, of a message
/// under a secret (`jsonwebtoken::crypto::sign` with `Algorithm::HS256`).
pub uninterp spec fn hs256_signature(message: Seq<u8>, secret: Seq<u8>) -> Seq<char>;

/// Whether `token` is `header.payload.signature` where the signature, the
/// part after the last `.`, is the HS256 signature of `header.payload`
/// under `secret`.
pub open spec fn signed_with(token: Seq<char>, secret: Seq<u8>) -> bool {
    exists|message: Seq<char>, signature: Seq<char>|
        #![trigger message + seq!['.'] + signature]
        token == message + seq!['.'] + signature && message.contains('.') && !signature.contains('.')
            && signature == hs256_signature(encode_utf8(message), secret)
}

/// Whether `jsonwebtoken` reads the base64url text as a header that names
/// the HS256 algorithm (`Header::from_encoded` succeeds with `alg` HS256).
pub uninterp spec fn header_names_hs256(encoded_header: Seq<char>) -> bool;

/// Whether `token` is `header.payload.signature`, split at its last two
/// `.`, with a header that names HS256.
pub open spec fn hs256_header(token: Seq<char>) -> bool {
    exists|header: Seq<char>, payload: Seq<char>, signature: Seq<char>|
        #![trigger header + seq!['.'] + payload + seq!['.'] + signature]
        token == header + seq!['.'] + payload + seq!['.'] + signature && !payload.contains('.')
            && !signature.contains('.') && header_names_hs256(header)
}

/// Whether every claims text without surrounding white space from which
/// `token` was created with `secret` is `decoded`.
pub open spec fn yields(token: Seq<char>, secret: Seq<u8>, decoded: Seq<char>) -> bool {
    forall|claims: Seq<char>|
        #[trigger] jwt_encoding(claims, secret) == Some(token) && unpadded(claims) ==> decoded == claims
}

/// Signs JSON claims text as a token (`jsonwebtoken::encode`).
///
/// Trusted: the contract claims that the result is a function of the claims
/// text and the secret alone, that it fails exactly where that function
/// gives `None` (the text is not JSON), and that the token is
/// `header.payload` followed by `.` and the HS256 signature of
/// `header.payload`, with the default header naming HS256 (the source
/// joins the parts with `.`, and neither the base64url parts nor the
/// signature hold a `.`).
#[verifier::external_body]
fn jwt_encode(claims: &str, secret: &[u8]) -> (r: Result<String, JwtError>)
    ensures
        r is Ok <==> jwt_encoding(claims@, secret@) is Some,
        r matches Ok(token) ==> jwt_encoding(claims@, secret@) == Some(token@),
        r matches Ok(token) ==> exists|header: Seq<char>, payload: Seq<char>, signature: Seq<char>|
            #![trigger header + seq!['.'] + payload + seq!['.'] + signature]
            token@ == header + seq!['.'] + payload + seq!['.'] + signature && !payload.contains('.')
                && !signature.contains('.') && header_names_hs256(header),
        r matches Ok(token) ==> exists|message: Seq<char>, signature: Seq<char>|
            #![trigger message + seq!['.'] + signature]
            token@ == message + seq!['.'] + signature && message.contains('.') && !signature.contains('.')
                && signature == hs256_signature(encode_utf8(message), secret@),
{
    let raw = RawValue::from_string(claims.to_string()).map_err(JwtError::from)?;
    encode(&Header::default(), &raw, &EncodingKey::from_secret(secret))
}

/// Verifies a token and gives back its claims text (`jsonwebtoken::decode`
/// with the default validation).
///
/// Trusted: whether it succeeds depends on the clock (the `exp` claim), so
/// the contract claims only that a token without a `.` is refused, that a
/// token is accepted only where its header names HS256 (the only algorithm
/// of the default validation) and its signature is the HS256 signature of
/// the rest under the secret (the source splits at the last `.` and
/// compares the signature with one made afresh), and that the claims given
/// back are those that the token was made of.
#[verifier::external_body]
fn jwt_decode(token: &str, secret: &[u8]) -> (r: Result<String, JwtError>)
    ensures
        !token@.contains('.') ==> r is Err,
        r is Ok ==> exists|header: Seq<char>, payload: Seq<char>, signature: Seq<char>|
            #![trigger header + seq!['.'] + payload + seq!['.'] + signature]
            token@ == header + seq!['.'] + payload + seq!['.'] + signature && !payload.contains('.')
                && !signature.contains('.') && header_names_hs256(header),
        r is Ok ==> exists|message: Seq<char>, signature: Seq<char>|
            #![trigger message + seq!['.'] + signature]
            token@ == message + seq!['.'] + signature && message.contains('.') && !signature.contains('.')
                && signature == hs256_signature(encode_utf8(message), secret@),
        r matches Ok(c) ==> yields(token@, secret@, c@),
{
    decode::<Box<RawValue>>(token, &DecodingKey::from_secret(secret), &Validation::default())
        .map(|data| data.claims.get().to_string())
}

/// The text of a `jsonwebtoken` error (its `Display`).
///
/// Trusted: nothing is stated of the text.
#[verifier::external_body]
fn jwt_error_text(e: &JwtError) -> String {
    e.to_string()
}

/// The secret that signs tokens: the bytes of the configured `jwt_key`.
pub open spec fn jwt_secret(config: Config) -> Seq<u8> {
    encode_utf8(config.jwt_key@)
}

/// Create a json web token (JWT) from the JSON text of a claim.
pub fn create_jwt(claims: &str, config: &Config) -> (r: Result<String, ApiError>)
    ensures
        r matches Ok(token) ==> jwt_encoding(claims@, jwt_secret(*config)) == Some(token@),
        r matches Ok(token) ==> signed_with(token@, jwt_secret(*config)),
        r matches Ok(token) ==> hs256_header(token@),
        r matches Err(e) ==> jwt_encoding(claims@, jwt_secret(*config)) is None
            && e is CannotEncodeJwtToken,
{
    match jwt_encode(claims, config.jwt_key.as_str().as_bytes()) {
        Ok(token) => Ok(token),
        Err(e) => Err(ApiError::CannotEncodeJwtToken(jwt_error_text(&e))),
    }
}

/// Decode a json web token (JWT), giving back the JSON text of its claim.
///
/// What it gives back is what the token was created from.
pub fn decode_jwt(token: &str, config: &Config) -> (r: Result<String, ApiError>)
    ensures
        !token@.contains('.') ==> r is Err,
        r matches Err(e) ==> e is CannotDecodeJwtToken,
        !signed_with(token@, jwt_secret(*config)) ==> r is Err,
        !hs256_header(token@) ==> r is Err,
        r matches Ok(c) ==> yields(token@, jwt_secret(*config), c@),
{
    decoded(jwt_decode(token, config.jwt_key.as_str().as_bytes()))
}

/// What `decode_jwt` makes of the verifier's outcome: the claims of a token
/// that verified, unchanged, and `CannotDecodeJwtToken` for one that did not.
pub fn decoded(outcome: Result<String, JwtError>) -> (r: Result<String, ApiError>)
    ensures
        outcome is Ok <==> r is Ok,
        outcome matches Ok(c) ==> r matches Ok(d) && d@ == c@,
        r matches Err(e) ==> e is CannotDecodeJwtToken,
{
    match outcome {
        Ok(c) => Ok(c),
        Err(e) => Err(ApiError::CannotDecodeJwtToken(jwt_error_text(&e))),
    }
}

/// A token that `create_jwt` made from claims text decodes, where it
/// decodes at all, to that very text.
pub proof fn decode_inverts_create(claims: Seq<char>, config: Config, token: Seq<char>, decoded: Seq<char>)
    requires
        jwt_encoding(claims, jwt_secret(config)) == Some(token),
        unpadded(claims),
        yields(token, jwt_secret(config), decoded),
    ensures
        decoded == claims,
{
}

// ---------------------------------------------------------------------------
// The authenticated user
// ---------------------------------------------------------------------------

/// The hexadecimal digit `i` (most significant first) of a 128-bit number.
pub open spec fn nibble(u: u128, i: int) -> int {
    (u as int / pow(16, (31 - i) as nat)) % 16
}

/// The 32 lower-case hex digits of a 128-bit number.
pub open spec fn hex32(u: u128) -> Seq<char> {
    Seq::new(32, |i: int| hex_digit(nibble(u, i)))
}

/// The hyphenated text of a UUID: 8-4-4-4-12 lower-case hex digits.
pub open spec fn uuid_text(u: u128) -> Seq<char> {
    let h = hex32(u);
    h.subrange(0, 8) + seq!['-'] + h.subrange(8, 12) + seq!['-'] + h.subrange(12, 16)
        + seq!['-'] + h.subrange(16, 20) + seq!['-'] + h.subrange(20, 32)
}

/// The hyphenated text of the UUID with this 128-bit value
/// (`Uuid::from_u128(u).to_string()`).
///
/// Trusted: the contract claims `uuid`'s lower-case hyphenated format.
#[verifier::external_body]
fn uuid_string(u: u128) -> (s: String)
    ensures
        s@ == uuid_text(u),
{
    Uuid::from_u128(u).to_string()
}

/// The user on whose behalf a request is made.
pub struct AuthUser {
    pub id: String,
    pub email: String,
}

impl AuthUser {
    /// The user that a decoded claim names.
    pub fn from_claim(claim: &PrivateClaim) -> (u: Self)
        ensures
            u.id@ == uuid_text(claim.user_id),
            u.email@ == claim.email@,
    {
        AuthUser { id: uuid_string(claim.user_id), email: claim.email.clone() }
    }
}

} // verus!
