//! The error type shared by every operation of the library.
//!
//! Failures fall into two groups: conditions the library itself detects
//! (an envelope whose success flag is false, a successful envelope without a
//! result, caller options that clash with pagination) and failures carried in
//! from the crates that do the transport and parsing work.

use vstd::prelude::*;

verus! {

/// Declares `url::ParseError` so that it can be carried inside [`ApiError`].
#[verifier::external_type_specification]
#[verifier::external_body]
pub struct ExUrlParseError(url::ParseError);

/// Declares `serde_json::Error` so that it can be carried inside [`ApiError`].
#[verifier::external_type_specification]
#[verifier::external_body]
pub struct ExJsonError(serde_json::Error);

/// Declares `reqwest::Error` so that it can be carried inside [`ApiError`].
#[verifier::external_type_specification]
#[verifier::external_body]
pub struct ExReqwestError(reqwest::Error);

/// Declares `std::io::Error` so that it can be carried inside [`ApiError`].
#[verifier::external_type_specification]
#[verifier::external_body]
pub struct ExIoError(std::io::Error);

/// Every way a call against the remote service can fail.
///
/// The first three variants are produced by the library's own checks; the
/// rest wrap failures of the transport, body reading, JSON parsing and URL
/// parsing layers, each kept distinguishable from the others.
#[derive(Debug)]
pub enum ApiError {
    /// A successful envelope arrived without a `result` (or, during
    /// pagination, without `result_info`).
    NoResultsReturned,
    /// Caller-supplied arguments conflict with an accessor's own invariants.
    InvalidOptions,
    /// The envelope parsed, but its `success` flag was false.
    NotSuccess,
    /// The HTTP layer failed before an envelope could be read.
    Reqwest(reqwest::Error),
    /// The body was not valid JSON or did not match the envelope shape.
    Json(serde_json::Error),
    /// Reading the response body failed.
    Io(std::io::Error),
    /// The base URL failed to parse at client construction time.
    Url(url::ParseError),
}

impl From<reqwest::Error> for ApiError {
    fn from(err: reqwest::Error) -> (r: ApiError)
        ensures
            r == ApiError::Reqwest(err),
    {
        ApiError::Reqwest(err)
    }
}

impl vstd::std_specs::convert::FromSpecImpl<reqwest::Error> for ApiError {
    open spec fn obeys_from_spec() -> bool {
        true
    }

    open spec fn from_spec(err: reqwest::Error) -> ApiError {
        ApiError::Reqwest(err)
    }
}

impl From<serde_json::Error> for ApiError {
    fn from(err: serde_json::Error) -> (r: ApiError)
        ensures
            r == ApiError::Json(err),
    {
        ApiError::Json(err)
    }
}

impl vstd::std_specs::convert::FromSpecImpl<serde_json::Error> for ApiError {
    open spec fn obeys_from_spec() -> bool {
        true
    }

    open spec fn from_spec(err: serde_json::Error) -> ApiError {
        ApiError::Json(err)
    }
}

impl From<std::io::Error> for ApiError {
    fn from(err: std::io::Error) -> (r: ApiError)
        ensures
            r == ApiError::Io(err),
    {
        ApiError::Io(err)
    }
}

impl vstd::std_specs::convert::FromSpecImpl<std::io::Error> for ApiError {
    open spec fn obeys_from_spec() -> bool {
        true
    }

    open spec fn from_spec(err: std::io::Error) -> ApiError {
        ApiError::Io(err)
    }
}

impl From<url::ParseError> for ApiError {
    fn from(err: url::ParseError) -> (r: ApiError)
        ensures
            r == ApiError::Url(err),
    {
        ApiError::Url(err)
    }
}

impl vstd::std_specs::convert::FromSpecImpl<url::ParseError> for ApiError {
    open spec fn obeys_from_spec() -> bool {
        true
    }

    open spec fn from_spec(err: url::ParseError) -> ApiError {
        ApiError::Url(err)
    }
}

} // verus!
