//! Creating search errors and mapping HTTP status codes onto them.

use vstd::prelude::*;
use crate::numbers::{decimal, u64_to_decimal};
use crate::text::prefixed;
use crate::types::{SearchError, SpecSearchError};

verus! {

/// The error for an empty or malformed query.
pub fn create_invalid_query_error() -> (e: SearchError)
    ensures
        e@ == SpecSearchError::InvalidQuery,
{
    SearchError::InvalidQuery
}

/// The error for a rate-limited request, to be retried after `retry_after` seconds.
pub fn create_rate_limited_error(retry_after: u32) -> (e: SearchError)
    ensures
        e@ == SpecSearchError::RateLimited(retry_after),
{
    SearchError::RateLimited(retry_after)
}

/// The error for a feature that the provider does not support.
pub fn create_unsupported_feature_error(feature: String) -> (e: SearchError)
    ensures
        e@ == SpecSearchError::UnsupportedFeature(feature@),
{
    SearchError::UnsupportedFeature(feature)
}

/// The error for a failure of the provider's API or of the network.
pub fn create_backend_error(message: String) -> (e: SearchError)
    ensures
        e@ == SpecSearchError::BackendError(message@),
{
    SearchError::BackendError(message)
}

/// The error that an HTTP response with status `status` stands for.
pub open spec fn status_error(status: u16, message: Seq<char>) -> SpecSearchError {
    if status == 400 {
        SpecSearchError::InvalidQuery
    } else if status == 401 || status == 403 {
        SpecSearchError::BackendError("Authentication failed: "@ + message)
    } else if status == 429 {
        SpecSearchError::RateLimited(60)
    } else if 500 <= status <= 599 {
        SpecSearchError::BackendError("Server error: "@ + message)
    } else {
        SpecSearchError::BackendError("HTTP error "@ + decimal(status as nat) + ": "@ + message)
    }
}

/// Converts an HTTP status code and the provider's message to a search error.
pub fn http_status_to_search_error(status: u16, message: &str) -> (e: SearchError)
    ensures
        e@ == status_error(status, message@),
{
    if status == 400 {
        create_invalid_query_error()
    } else if status == 401 || status == 403 {
        create_backend_error(prefixed("Authentication failed: ", message))
    } else if status == 429 {
        create_rate_limited_error(60)
    } else if 500 <= status && status <= 599 {
        create_backend_error(prefixed("Server error: ", message))
    } else {
        let mut m = prefixed("HTTP error ", u64_to_decimal(status as u64).as_str());
        m.append(": ");
        m.append(message);
        create_backend_error(m)
    }
}

/// A status code of the `2xx` class, which `reqwest::StatusCode::is_success` accepts.
pub open spec fn is_success_status(status: u16) -> bool {
    200 <= status <= 299
}

/// Whether `status` reports success.
pub fn is_success(status: u16) -> (r: bool)
    ensures
        r == is_success_status(status),
{
    200 <= status && status <= 299
}

/// `Ok` for a successful status, otherwise the error it stands for.
pub fn check_status(status: u16, message: &str) -> (r: Result<(), SearchError>)
    ensures
        is_success_status(status) <==> r is Ok,
        r matches Err(e) ==> e@ == status_error(status, message@),
{
    if is_success(status) {
        Ok(())
    } else {
        Err(http_status_to_search_error(status, message))
    }
}

} // verus!
