use vstd::prelude::*;

verus! {

/// Every failure the query-and-cache core can surface to its caller.
/// The text payloads carry the raw response body as context; a
/// `RateLimitExceeded` carries the counters and a rendered reset time.
#[derive(Debug, PartialEq, Eq)]
pub enum Error {
    /// The API reported malformed search syntax.
    InvalidQuery(String),
    /// The credential was rejected.
    AuthenticationFailed(String),
    /// The credential lacks the needed scope.
    PermissionDenied(String),
    /// Any other client-side HTTP status.
    UnexpectedClientError(String),
    /// Any server-side HTTP status.
    UnexpectedServerError(String),
    /// The request could not be sent or its response could not be read.
    TransportFailure(String),
    /// A success response whose body does not match the expected shape.
    MalformedResponse(String),
    /// The rate-limit endpoint reported that no requests remain.
    RateLimitExceeded { remaining: u32, limit: u32, reset_text: String },
}

/// Mathematical image of an `Error`.
pub enum ErrorV {
    InvalidQuery(Seq<char>),
    AuthenticationFailed(Seq<char>),
    PermissionDenied(Seq<char>),
    UnexpectedClientError(Seq<char>),
    UnexpectedServerError(Seq<char>),
    TransportFailure(Seq<char>),
    MalformedResponse(Seq<char>),
    RateLimitExceeded { remaining: u32, limit: u32, reset_text: Seq<char> },
}

impl DeepView for Error {
    type V = ErrorV;

    open spec fn deep_view(&self) -> ErrorV {
        match self {
            Error::InvalidQuery(s) => ErrorV::InvalidQuery(s.deep_view()),
            Error::AuthenticationFailed(s) => ErrorV::AuthenticationFailed(s.deep_view()),
            Error::PermissionDenied(s) => ErrorV::PermissionDenied(s.deep_view()),
            Error::UnexpectedClientError(s) => ErrorV::UnexpectedClientError(s.deep_view()),
            Error::UnexpectedServerError(s) => ErrorV::UnexpectedServerError(s.deep_view()),
            Error::TransportFailure(s) => ErrorV::TransportFailure(s.deep_view()),
            Error::MalformedResponse(s) => ErrorV::MalformedResponse(s.deep_view()),
            Error::RateLimitExceeded { remaining, limit, reset_text } => ErrorV::RateLimitExceeded {
                remaining: *remaining,
                limit: *limit,
                reset_text: reset_text.deep_view(),
            },
        }
    }
}

} // verus!
