//! Request bodies and responses of the handlers, and the rules they follow.

use vstd::prelude::*;
use vstd::string::StrSliceExecFns;
use validator::ValidateEmail;
use crate::errors::ApiError;
use crate::extractors::Json;
use crate::text::views;

verus! {

// ---------------------------------------------------------------------------
// Login
// ---------------------------------------------------------------------------

/// The credentials of a login request.
pub struct LoginRequest {
    pub email: String,
    pub password: String,
}

/// The message for an email address that is not valid.
pub const EMAIL_MESSAGE: &'static str = "email must be a valid email";

/// The message for a password that is too short.
pub const PASSWORD_MESSAGE: &'static str = "password is required and must be at least 6 characters";

/// The fewest characters a password may have.
pub const MIN_PASSWORD_CHARS: usize = 6;

/// Whether `validator` accepts the text as an email address.
pub uninterp spec fn valid_email(s: Seq<char>) -> bool;

/// Checks an email address (`validator::ValidateEmail::validate_email`).
///
/// Trusted: the contract claims that the answer is a function of the text
/// alone, and that an empty text or one without `@` is refused, as the
/// source checks first.
#[verifier::external_body]
fn email_is_valid(s: &str) -> (r: bool)
    ensures
        r == valid_email(s@),
        s@.len() == 0 ==> !r,
        !s@.contains('@') ==> !r,
{
    s.validate_email()
}

/// The messages of the rules that a login request breaks, email first.
pub open spec fn login_problems(email: Seq<char>, password: Seq<char>) -> Seq<Seq<char>> {
    (if valid_email(email) { seq![] } else { seq![EMAIL_MESSAGE@] }) + (if password.len()
        >= MIN_PASSWORD_CHARS { seq![] } else { seq![PASSWORD_MESSAGE@] })
}

/// The password rule is a lower bound only: with a valid email, a login
/// request passes exactly when the password has at least six characters,
/// however long it is; an invalid email is always reported.
pub proof fn password_rule_law(email: Seq<char>, password: Seq<char>)
    ensures
        valid_email(email) ==> (login_problems(email, password).len() == 0 <==> password.len() >= 6),
        !valid_email(email) ==> login_problems(email, password).len() > 0,
        password.len() >= 6 ==> !login_problems(email, password).contains(PASSWORD_MESSAGE@),
{
    if password.len() >= 6 {
        reveal_strlit("email must be a valid email");
        reveal_strlit("password is required and must be at least 6 characters");
        let ps = login_problems(email, password);
        if valid_email(email) {
            assert(ps =~= seq![]);
        } else {
            assert(ps =~= seq![EMAIL_MESSAGE@]);
            assert(EMAIL_MESSAGE@ != PASSWORD_MESSAGE@) by {
                assert(EMAIL_MESSAGE@[0] != PASSWORD_MESSAGE@[0]);
            }
        }
    }
}

impl LoginRequest {
    /// Checks the request: the email must be a valid email address and the
    /// password must have at least six characters.
    pub fn validate(&self) -> (r: Result<(), ApiError>)
        ensures
            r is Ok <==> login_problems(self.email@, self.password@).len() == 0,
            self.email@.len() == 0 || !self.email@.contains('@') ==> r is Err,
            valid_email(self.email@) && self.password@.len() >= 6 ==> r is Ok,
            self.password@.len() < 6 ==> r is Err,
            !valid_email(self.email@) ==> r is Err,
            r matches Err(e) ==> e matches ApiError::ValidationError(ms)
                && views(ms@) == login_problems(self.email@, self.password@),
    {
        let mut messages: Vec<String> = Vec::new();
        if !email_is_valid(self.email.as_str()) {
            messages.push(EMAIL_MESSAGE.to_owned());
        }
        if self.password.as_str().unicode_len() < MIN_PASSWORD_CHARS {
            messages.push(PASSWORD_MESSAGE.to_owned());
        }
        assert(views(messages@) =~= login_problems(self.email@, self.password@));
        if messages.len() == 0 {
            Ok(())
        } else {
            Err(ApiError::ValidationError(messages))
        }
    }
}

// ---------------------------------------------------------------------------
// Health
// ---------------------------------------------------------------------------

/// The liveness report of the service.
pub struct HealthResponse {
    pub status: String,
    pub version: String,
}

/// Handler to get the liveness of the service, reporting `version`.
pub fn get_health(version: &str) -> (r: Result<Json<HealthResponse>, ApiError>)
    ensures
        r matches Ok(Json(h)) && h.status@ == "ok"@ && h.version@ == version@,
{
    Ok(Json(HealthResponse { status: "ok".to_owned(), version: version.to_owned() }))
}

} // verus!
