//! Errors that the API reports.

use vstd::prelude::*;

verus! {

/// An error of the API, with the text that is reported for it.
#[derive(Debug)]
pub enum ApiError {
    /// A blocking task of a handler did not complete.
    BlockingError(String),
    CacheError(String),
    CannotDecodeJwtToken(String),
    CannotEncodeJwtToken(String),
    ValidationError(Vec<String>),
}

} // verus!
