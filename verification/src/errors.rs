use vstd::prelude::*;

verus! {

/// The closed set of failures a management API call can resolve into.
///
/// Every request ends as either a success value or exactly one of these
/// variants; no outcome is left as a raw transport result.
#[derive(Debug, Clone)]
pub enum RabbitMqClientError {
    /// Credentials rejected or missing (HTTP 401).
    Unauthorized,
    /// A create operation found a same-named resource already present.
    AlreadyExists(String),
    /// The target resource is absent (HTTP 404); carries the response body.
    NotFound(String),
    /// The configured API base URL is unusable.
    InvalidApiUrl(String),
    /// A success-range body failed to decode as the expected type.
    ParsingError(String),
    /// A request-decorating middleware failed before the call went out.
    Middleware(String),
    /// The transport failed to send the request or read the response.
    Request(String),
    /// Any other non-success status; opaque passthrough for the caller.
    ApiError(RabbitMqApiError),
    /// A success response lacked an out-of-band signal the caller needs.
    UnexpectedResponse(String),
}

/// Status code and body text of an unclassified API failure.
#[derive(Debug, Clone)]
pub struct RabbitMqApiError {
    pub code: u16,
    pub text: String,
}

} // verus!
