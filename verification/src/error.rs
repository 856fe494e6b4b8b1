//! The closed error taxonomy for both backends, with the fixed mappings
//! from HTTP status codes and provider error tags into it.

use vstd::prelude::*;

verus! {

/// Errors raised while loading client configuration: the name of the
/// missing variable.
#[derive(Clone, Debug, PartialEq)]
pub enum ClientError {
    MissingEnvVar(String),
}

/// The error taxonomy of the array-framed backend.
#[derive(Clone, Debug)]
pub enum GeminiError {
    InvalidArgument,
    PermissionDenied,
    NotFound,
    ResourceExhausted,
    Cancelled,
    Internal,
    Unavailable,
    DeadlineExceeded,
    ParseError(String),
    AuthenticationError(String),
}

/// Maps an HTTP status code to its error kind; unrecognized codes map
/// to `Internal`.
pub fn gemini_error_from_status(code: u32) -> (r: GeminiError)
    ensures
        r == spec_gemini_error_from_status(code),
{
    if code == 400 {
        GeminiError::InvalidArgument
    } else if code == 403 {
        GeminiError::PermissionDenied
    } else if code == 404 {
        GeminiError::NotFound
    } else if code == 429 {
        GeminiError::ResourceExhausted
    } else if code == 499 {
        GeminiError::Cancelled
    } else if code == 503 {
        GeminiError::Unavailable
    } else if code == 504 {
        GeminiError::DeadlineExceeded
    } else {
        GeminiError::Internal
    }
}

/// The status-code table: 400, 403, 404, 429, 499, 503 and 504 each have
/// a kind of their own; 500 and every other code are `Internal`.
pub open spec fn spec_gemini_error_from_status(code: u32) -> GeminiError {
    if code == 400 {
        GeminiError::InvalidArgument
    } else if code == 403 {
        GeminiError::PermissionDenied
    } else if code == 404 {
        GeminiError::NotFound
    } else if code == 429 {
        GeminiError::ResourceExhausted
    } else if code == 499 {
        GeminiError::Cancelled
    } else if code == 503 {
        GeminiError::Unavailable
    } else if code == 504 {
        GeminiError::DeadlineExceeded
    } else {
        GeminiError::Internal
    }
}

/// The error taxonomy of the event-framed backend.
#[derive(Clone, Debug)]
pub enum ClaudeError {
    InvalidRequestError(String),
    AuthenticationError(String),
    PermissionError(String),
    NotFoundError(String),
    RequestTooLarge(String),
    RateLimitError(String),
    ApiError(String),
    OverloadedError(String),
    Internal(String),
    ParseError(String),
}


/// Whether an error value is the one the fixed tag table selects for
/// this tag, carrying this message; unrecognized tags select
/// `Internal`.
pub open spec fn claude_tag_selects(tag: Seq<char>, msg: Seq<char>, e: ClaudeError) -> bool {
    if tag == "invalid_request_error"@ {
        e matches ClaudeError::InvalidRequestError(m) && m@ == msg
    } else if tag == "authentication_error"@ {
        e matches ClaudeError::AuthenticationError(m) && m@ == msg
    } else if tag == "permission_error"@ {
        e matches ClaudeError::PermissionError(m) && m@ == msg
    } else if tag == "not_found_error"@ {
        e matches ClaudeError::NotFoundError(m) && m@ == msg
    } else if tag == "request_too_large"@ {
        e matches ClaudeError::RequestTooLarge(m) && m@ == msg
    } else if tag == "rate_limit_error"@ {
        e matches ClaudeError::RateLimitError(m) && m@ == msg
    } else if tag == "api_error"@ {
        e matches ClaudeError::ApiError(m) && m@ == msg
    } else if tag == "overloaded_error"@ {
        e matches ClaudeError::OverloadedError(m) && m@ == msg
    } else {
        e matches ClaudeError::Internal(m) && m@ == msg
    }
}

/// Maps a provider error tag and message to the error kind the fixed
/// table selects.
pub fn claude_error_from_tag(tag: &str, message: String) -> (r: ClaudeError)
    ensures
        claude_tag_selects(tag@, message@, r),
{
    if crate::decode::str_eq(tag, "invalid_request_error") {
        ClaudeError::InvalidRequestError(message)
    } else if crate::decode::str_eq(tag, "authentication_error") {
        ClaudeError::AuthenticationError(message)
    } else if crate::decode::str_eq(tag, "permission_error") {
        ClaudeError::PermissionError(message)
    } else if crate::decode::str_eq(tag, "not_found_error") {
        ClaudeError::NotFoundError(message)
    } else if crate::decode::str_eq(tag, "request_too_large") {
        ClaudeError::RequestTooLarge(message)
    } else if crate::decode::str_eq(tag, "rate_limit_error") {
        ClaudeError::RateLimitError(message)
    } else if crate::decode::str_eq(tag, "api_error") {
        ClaudeError::ApiError(message)
    } else if crate::decode::str_eq(tag, "overloaded_error") {
        ClaudeError::OverloadedError(message)
    } else {
        ClaudeError::Internal(message)
    }
}

} // verus!
