//! Error taxonomy of the source adapters, and the classification of HTTP
//! status codes that every adapter shares: a 404 is valid "no data", a
//! 429 is a hard error for the call, any other non-2xx is a hard error.

use vstd::prelude::*;

verus! {

/// Why a source yielded nothing for a pass.
#[derive(Debug, Clone, Copy, PartialEq, Eq)]
pub enum SourceError {
    /// Missing credentials: the source is disabled, not failing.
    ConfigurationAbsent,
    /// The service answered but knows nothing about the title.
    NotFound,
    /// The service rejected the call for rate limiting; never retried.
    RateLimited,
    /// The call failed in transit or returned a failure status.
    TransientNetwork,
    /// The response body could not be understood.
    Protocol,
    /// The cache layer itself failed; the one error allowed to escape.
    CacheIo,
}

/// A short human-readable description of a source error.
pub open spec fn spec_error_message(e: SourceError) -> Seq<char> {
    match e {
        SourceError::ConfigurationAbsent => "credentials not configured"@,
        SourceError::NotFound => "not found"@,
        SourceError::RateLimited => "rate limit exceeded"@,
        SourceError::TransientNetwork => "request failed"@,
        SourceError::Protocol => "malformed response"@,
        SourceError::CacheIo => "cache unavailable"@,
    }
}

impl SourceError {
    /// A short human-readable description.
    pub fn message(&self) -> (r: &'static str)
        ensures
            r@ == spec_error_message(*self),
    {
        match self {
            SourceError::ConfigurationAbsent => "credentials not configured",
            SourceError::NotFound => "not found",
            SourceError::RateLimited => "rate limit exceeded",
            SourceError::TransientNetwork => "request failed",
            SourceError::Protocol => "malformed response",
            SourceError::CacheIo => "cache unavailable",
        }
    }
}

/// What an HTTP status code means to a source adapter.
#[derive(Debug, Clone, Copy, PartialEq, Eq)]
pub enum StatusClass {
    Success,
    NotFound,
    RateLimited,
    Failure,
}

/// The class of a status code: 404 is "no data", 429 is a rate limit,
/// the 2xx range is success, everything else is a hard failure.
pub open spec fn spec_classify_status(status: u16) -> StatusClass {
    if status == 404 {
        StatusClass::NotFound
    } else if status == 429 {
        StatusClass::RateLimited
    } else if 200 <= status < 300 {
        StatusClass::Success
    } else {
        StatusClass::Failure
    }
}

/// Classifies an HTTP status code for a source adapter.
pub fn classify_status(status: u16) -> (r: StatusClass)
    ensures
        r == spec_classify_status(status),
{
    if status == 404 {
        StatusClass::NotFound
    } else if status == 429 {
        StatusClass::RateLimited
    } else if 200 <= status && status < 300 {
        StatusClass::Success
    } else {
        StatusClass::Failure
    }
}

} // verus!
