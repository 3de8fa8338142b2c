//! What an adapter owes its framework for each outcome of a check.
//!
//! An adapter sits between a web framework and the limiter. It picks the key
//! of a request, has the limiter check it, and turns the outcome into a
//! reply. The choices are made here; talking to the framework is the
//! adapter's part.

use vstd::prelude::*;
use crate::limiter::{RateLimitDecision, RateLimitError};

verus! {

/// The key of a request whose sender cannot be told.
pub const ANONYMOUS_KEY: &'static str = "anon";

/// The response header in which an allowed request carries the tokens left.
pub const REMAINING_HEADER: &'static str = "x-rate-limit-remaining";

/// The status of a reply to a limited request: too many requests.
pub const STATUS_TOO_MANY_REQUESTS: u16 = 429;

/// The status of a reply where the limiter itself failed.
pub const STATUS_INTERNAL_SERVER_ERROR: u16 = 500;

/// What the adapter does with a request.
#[derive(Debug, PartialEq, Eq)]
pub enum Reply {
    /// Hand the request on, and report `remaining` in the response.
    Forward { remaining: u32 },
    /// Answer at once that the caller has to wait `retry_after_secs` seconds.
    TooManyRequests { retry_after_secs: u128 },
    /// Answer at once that the limiter failed, with its account of the failure.
    InternalError { message: String },
}

impl Reply {
    /// The status that a reply made at once carries: none for a request that
    /// is handed on.
    pub open spec fn spec_status(&self) -> Option<u16> {
        match self {
            Reply::Forward { .. } => None,
            Reply::TooManyRequests { .. } => Some(429u16),
            Reply::InternalError { .. } => Some(500u16),
        }
    }

    /// The status that a reply made at once carries.
    #[verifier::when_used_as_spec(spec_status)]
    pub fn status(&self) -> (code: Option<u16>)
        ensures
            code == self.spec_status(),
    {
        match self {
            Reply::Forward { .. } => None,
            Reply::TooManyRequests { .. } => Some(STATUS_TOO_MANY_REQUESTS),
            Reply::InternalError { .. } => Some(STATUS_INTERNAL_SERVER_ERROR),
        }
    }
}

/// The key under which a request is counted: the address that the framework
/// found for its sender, and `anon` where it found none.
pub fn client_key<'a>(address: Option<&'a str>) -> (key: &'a str)
    ensures
        key@ == match address {
            Some(found) => found@,
            None => ANONYMOUS_KEY@,
        },
{
    match address {
        Some(found) => found,
        None => ANONYMOUS_KEY,
    }
}

/// Turns the outcome of a check into the adapter's reply. An allowed request
/// is handed on with its remaining tokens; a limited one is answered with the
/// whole seconds to wait; a failure is answered with the error's text.
pub fn reply_to(outcome: Result<RateLimitDecision, RateLimitError>) -> (reply: Reply)
    ensures
        match outcome {
            Ok(RateLimitDecision::Allowed { remaining }) => reply == (Reply::Forward { remaining }),
            Ok(RateLimitDecision::Limited { retry_after }) => reply == (Reply::TooManyRequests {
                retry_after_secs: (retry_after@ / 1_000_000_000) as u128,
            }),
            Err(e) => reply matches Reply::InternalError { message } && message@
                == "storage error: "@ + e->Storage_0@,
        },
{
    match outcome {
        Ok(RateLimitDecision::Allowed { remaining }) => Reply::Forward { remaining },
        Ok(RateLimitDecision::Limited { retry_after }) => Reply::TooManyRequests {
            retry_after_secs: retry_after.as_secs(),
        },
        Err(e) => Reply::InternalError { message: e.message() },
    }
}

} // verus!
