use vstd::prelude::*;

use crate::errors::{RabbitMqApiError, RabbitMqClientError};

verus! {

/// A status code lies in the HTTP success range.
pub open spec fn is_success_status(status: u16) -> bool {
    200 <= status && status <= 299
}

/// What `map_error` promises: 401 classifies as `Unauthorized` (before any
/// other rule and without retaining the body), 404 as `NotFound` carrying the
/// exact body text, and every other status as `ApiError` carrying both.
pub open spec fn classifies(status: u16, text: Seq<char>, e: RabbitMqClientError) -> bool {
    if status == 401 {
        e == RabbitMqClientError::Unauthorized
    } else if status == 404 {
        e matches RabbitMqClientError::NotFound(t) && t@ == text
    } else {
        e matches RabbitMqClientError::ApiError(a) && a.code == status && a.text@ == text
    }
}

/// Exec mirror of `is_success_status`.
pub fn status_is_success(status: u16) -> (r: bool)
    ensures
        r == is_success_status(status),
{
    200 <= status && status <= 299
}

/// Classify a non-success status and its body text into an error value.
pub fn map_error(status: u16, text: String) -> (e: RabbitMqClientError)
    ensures
        classifies(status, text@, e),
{
    if status == 401 {
        return RabbitMqClientError::Unauthorized;
    }
    if status == 404 {
        return RabbitMqClientError::NotFound(text);
    }
    RabbitMqClientError::ApiError((RabbitMqApiError { code: status, text }))
}

/// Normalize a completed exchange that is expected to return a typed body.
///
/// `body` is the outcome of reading the response body to completion, and
/// `decoded` the outcome of decoding that text as the expected type; the
/// decode outcome only matters when the status is in the success range and
/// the body was read. The result is exactly one of: the decoded value, a
/// `Request` error for a body that could not be read, a `ParsingError` for a
/// success body that did not decode, or the classified failure.
pub fn handle_response<T>(
    status: u16,
    body: Result<String, String>,
    decoded: Result<T, String>,
) -> (r: Result<T, RabbitMqClientError>)
    ensures
        body is Err ==> (r matches Err(e) && e matches RabbitMqClientError::Request(m) && m@
            == body->Err_0@),
        body is Ok && is_success_status(status) && decoded is Ok ==> (r matches Ok(v) && v
            == decoded->Ok_0),
        body is Ok && is_success_status(status) && decoded is Err ==> (r matches Err(e)
            && e matches RabbitMqClientError::ParsingError(m) && m@ == decoded->Err_0@),
        body is Ok && !is_success_status(status) ==> (r matches Err(e) && classifies(
            status,
            body->Ok_0@,
            e,
        )),
{
    match body {
        Err(m) => Err(RabbitMqClientError::Request(m)),
        Ok(text) => {
            if status_is_success(status) {
                match decoded {
                    Ok(value) => Ok(value),
                    Err(m) => Err(RabbitMqClientError::ParsingError(m)),
                }
            } else {
                Err(map_error(status, text))
            }
        },
    }
}

/// Normalize a completed exchange whose success carries no body.
///
/// A success status resolves to `Ok` without looking at the body. On any
/// other status the body text is required for classification, so a body that
/// could not be read surfaces as a `Request` error.
pub fn handle_empty_response(status: u16, body: Result<String, String>) -> (r: Result<
    (),
    RabbitMqClientError,
>)
    ensures
        is_success_status(status) ==> r is Ok,
        !is_success_status(status) && body is Ok ==> (r matches Err(e) && classifies(
            status,
            body->Ok_0@,
            e,
        )),
        !is_success_status(status) && body is Err ==> (r matches Err(e)
            && e matches RabbitMqClientError::Request(m) && m@ == body->Err_0@),
{
    if status_is_success(status) {
        Ok(())
    } else {
        match body {
            Ok(text) => Err(map_error(status, text)),
            Err(m) => Err(RabbitMqClientError::Request(m)),
        }
    }
}

} // verus!
