//! Token-bucket rate limiting with lazy refill over a pluggable record store.
//!
//! Every function here carries a contract over a mathematical model of the
//! bucket: time is a count of nanoseconds, a store is a map from keys to
//! bucket states, and a check is a function from the stored record and the
//! current instant to a decision and the record to persist.

pub mod lemmas;
pub mod limiter;
pub mod middleware;
pub mod storage;
pub mod time;

pub use limiter::{RateLimitConfig, RateLimitDecision, RateLimiter};
pub use storage::in_memory::InMemoryStore;
