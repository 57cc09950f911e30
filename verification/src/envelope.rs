//! The generic success/error/pagination wrapper that every endpoint of the
//! remote service returns, and the classification of a parsed wrapper into
//! success or failure.
//!
//! The envelope's internal `success` flag is authoritative: a response is
//! rejected whenever the flag is false, whatever the transport status said
//! and whatever `result` holds. A successful envelope without a `result` is
//! itself an error condition, kept distinguishable from rejection.

use vstd::prelude::*;

use crate::errors::ApiError;

verus! {

/// Server-reported pagination metadata: the current page (1-indexed), the
/// page size, the number of items on this page, and the total number of
/// items across all pages.
#[derive(Debug, Clone, Copy, PartialEq, Eq, Structural)]
pub struct ResultInfo {
    pub page: u32,
    pub per_page: u32,
    pub count: u32,
    pub total_count: u32,
}

/// One error entry of an envelope: a numeric code and a message.
#[derive(Debug)]
pub struct ErrorDescription {
    pub code: u32,
    pub message: String,
}

/// The envelope shape shared by every response body:
/// `{ result, success, errors, messages, result_info }`.
#[derive(Debug)]
pub struct Response<T> {
    pub result: Option<T>,
    pub success: bool,
    pub errors: Vec<ErrorDescription>,
    pub messages: Vec<String>,
    pub result_info: Option<ResultInfo>,
}

/// Classifies a parsed envelope as the request executor does: an envelope
/// whose `success` flag is false is rejected with [`ApiError::NotSuccess`],
/// even when `result` is present and well-formed; any other envelope is
/// passed through unchanged, `result_info` included, so that both accessor
/// kinds can inspect pagination metadata identically.
pub fn check_success<T>(response: Response<T>) -> (r: Result<Response<T>, ApiError>)
    ensures
        response.success ==> (r matches Ok(out) && out == response),
        !response.success ==> (r matches Err(e) && e is NotSuccess),
{
    if !response.success {
        return Err(ApiError::NotSuccess);
    }
    Ok(response)
}

/// Extracts the single result of a non-paginated call.
///
/// Fails with [`ApiError::NotSuccess`] when the envelope's `success` flag is
/// false, and with [`ApiError::NoResultsReturned`] when the flag is true but
/// `result` is absent; otherwise hands the result out unchanged.
pub fn extract_result<T>(response: Response<T>) -> (r: Result<T, ApiError>)
    ensures
        !response.success ==> (r matches Err(e) && e is NotSuccess),
        response.success && response.result is None ==> (r matches Err(e)
            && e is NoResultsReturned),
        response.success && response.result is Some ==> (r matches Ok(v)
            && v == response.result->0),
{
    if !response.success {
        return Err(ApiError::NotSuccess);
    }
    match response.result {
        Some(v) => Ok(v),
        None => Err(ApiError::NoResultsReturned),
    }
}

} // verus!
