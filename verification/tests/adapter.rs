use rate_rs::limiter::RateLimitError;
use rate_rs::middleware::{client_key, reply_to, Reply};
use rate_rs::middleware::{ANONYMOUS_KEY, REMAINING_HEADER};
use rate_rs::middleware::{STATUS_INTERNAL_SERVER_ERROR, STATUS_TOO_MANY_REQUESTS};
use rate_rs::time::Interval;
use rate_rs::RateLimitDecision;

#[test]
fn allowed_request_is_forwarded_with_its_remaining_tokens() {
    let reply = reply_to(Ok(RateLimitDecision::Allowed { remaining: 4 }));
    assert_eq!(reply, Reply::Forward { remaining: 4 });
    assert_eq!(reply.status(), None);
}

#[test]
fn limited_request_is_answered_with_429_and_whole_seconds() {
    let reply = reply_to(Ok(RateLimitDecision::Limited { retry_after: Interval::from_secs(60) }));
    assert_eq!(reply, Reply::TooManyRequests { retry_after_secs: 60 });
    assert_eq!(reply.status(), Some(429));
    let reply =
        reply_to(Ok(RateLimitDecision::Limited { retry_after: Interval::from_millis(1_999) }));
    assert_eq!(reply, Reply::TooManyRequests { retry_after_secs: 1 });
    let reply = reply_to(Ok(RateLimitDecision::Limited { retry_after: Interval::from_millis(5) }));
    assert_eq!(reply, Reply::TooManyRequests { retry_after_secs: 0 });
}

#[test]
fn storage_failure_is_answered_with_500_and_the_error_text() {
    let reply = reply_to(Err(RateLimitError::Storage(String::from("timed out"))));
    assert_eq!(reply, Reply::InternalError { message: String::from("storage error: timed out") });
    assert_eq!(reply.status(), Some(500));
}

#[test]
fn status_constants_are_the_http_codes() {
    assert_eq!(STATUS_TOO_MANY_REQUESTS, 429);
    assert_eq!(STATUS_INTERNAL_SERVER_ERROR, 500);
    assert_eq!(REMAINING_HEADER, "x-rate-limit-remaining");
    assert_eq!(ANONYMOUS_KEY, "anon");
}

#[test]
fn client_key_is_the_address_or_anon() {
    assert_eq!(client_key(Some("203.0.113.9")), "203.0.113.9");
    assert_eq!(client_key(Some("")), "");
    assert_eq!(client_key(None), "anon");
}
