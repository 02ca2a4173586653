//! The error taxonomy of the library.
//!
//! Every fallible operation returns one of these variants; nothing is
//! recovered locally, all errors propagate to the caller.

use vstd::prelude::*;

verus! {

/// All failures the library can report.
///
/// - `Http`: a transport-level failure (connection, protocol), carrying the
///   transport's own description.
/// - `Json`: a failure to encode or decode JSON outside of a response body.
/// - `Api`: a failure reported by the remote API in free text.
/// - `InvalidScheme`: a base URL whose scheme is neither `http` nor `https`;
///   carries the offending scheme.
/// - `UrlNotBase`: a URL that cannot serve as a base; carries the URL text.
/// - `UrlParse`: malformed URL text; carries the parser's description.
/// - `InvalidToken`: a pre-issued token was rejected by the validation
///   endpoint (the request itself succeeded).
/// - `MissingUrlIdentifier`: a PATCH or DELETE was attempted without a
///   target identifier.
/// - `UnsupportedHttpOperation`: a verb the generic dispatcher does not
///   implement; carries the verb's name.
/// - `HttpWithBody`: a non-success HTTP status, with the best-effort message
///   extracted from the response body.
/// - `DeserializationError`: a response body that did not match the expected
///   shape; the raw text is retained for diagnostics.
/// - `EmptyResult`: no element where exactly one was expected; carries a
///   description naming the resource.
/// - `TooManyResults`: more than one element where exactly one was expected;
///   carries the resource name and the count seen.
#[derive(Debug, Clone, PartialEq)]
pub enum ApiError {
    Http(String),
    Json(String),
    Api(String),
    InvalidScheme(String),
    UrlNotBase(String),
    UrlParse(String),
    InvalidToken,
    MissingUrlIdentifier,
    UnsupportedHttpOperation(String),
    HttpWithBody { status: u16, message: String },
    DeserializationError(String),
    EmptyResult(String),
    TooManyResults { kind: String, count: usize },
}

} // verus!
