//! Request extractors: how a request's path, body and identity are read,
//! and how a request is refused when they cannot be.

use vstd::prelude::*;

verus! {

/// `400 Bad Request`.
pub const BAD_REQUEST: u16 = 400;

/// `401 Unauthorized`.
pub const UNAUTHORIZED: u16 = 401;

/// `404 Not Found`.
pub const NOT_FOUND: u16 = 404;

/// Path extractor.
///
/// A path segment which cannot be deserialized is reported as
/// `404 Not Found` with the bare deserializer message as the body.
#[derive(Debug, Clone, Copy, Default, PartialEq)]
pub struct Path<T>(pub T);

/// Json extractor and responder.
///
/// Every request payload problem (malformed body, missing fields, a missing
/// `Content-Type` header) is reported as an empty `400 Bad Request`.
#[derive(Debug, Clone, Copy, Default, PartialEq)]
pub struct Json<T>(pub T);

/// Why the path parameters of a request could not be read.
pub enum PathRejection {
    /// A segment failed to deserialize, with the deserializer's message.
    DeserializeError(String),
    /// A custom message of the deserializer.
    Message(String),
    /// Another kind of deserialization failure, with its display text.
    OtherKind(String),
    /// Another rejection, with its body text.
    Other(String),
}

/// The bare message that a path rejection carries.
pub open spec fn path_rejection_message(r: PathRejection) -> Seq<char> {
    match r {
        PathRejection::DeserializeError(m) => m@,
        PathRejection::Message(m) => m@,
        PathRejection::OtherKind(t) => t@,
        PathRejection::Other(t) => t@,
    }
}

/// The response to a request whose path cannot be read: `404 Not Found`
/// with the bare message.
pub fn path_rejection(r: PathRejection) -> (resp: (u16, String))
    ensures
        resp.0 == NOT_FOUND,
        resp.1@ == path_rejection_message(r),
{
    let message = match r {
        PathRejection::DeserializeError(m) => m,
        PathRejection::Message(m) => m,
        PathRejection::OtherKind(t) => t,
        PathRejection::Other(t) => t,
    };
    (NOT_FOUND, message)
}

/// The response to a request whose JSON body cannot be read:
/// `400 Bad Request` with an empty body.
pub fn json_rejection() -> (resp: (u16, String))
    ensures
        resp.0 == BAD_REQUEST,
        resp.1@ == Seq::<char>::empty(),
{
    (BAD_REQUEST, String::new())
}

/// The response to a request that is not allowed without an identity.
pub fn identity_rejection() -> (status: u16)
    ensures
        status == UNAUTHORIZED,
{
    UNAUTHORIZED
}

} // verus!
