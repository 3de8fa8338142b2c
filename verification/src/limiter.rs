//! The token-bucket engine: the bucket arithmetic, the storage contract it
//! relies on, and the limiter that ties the two together.

use vstd::prelude::*;
use vstd::arithmetic::div_mod::lemma_div_nonincreasing;
use crate::time::{elapsed_nanos, now, Interval, Timestamp};

verus! {

/// The parameters of every bucket that one limiter manages.
#[derive(Clone, Copy, Debug, PartialEq, Eq, Structural)]
pub struct RateLimitConfig {
    /// The most tokens a bucket holds.
    pub capacity: u32,
    /// The tokens a bucket gains for each full refill interval that has passed.
    pub refill_tokens: u32,
    /// The time between refills.
    pub refill_interval: Interval,
}

/// Why a configuration is turned down.
#[derive(Clone, Copy, Debug, PartialEq, Eq, Structural)]
pub enum ConfigError {
    /// The refill interval is empty, so no number of intervals can be counted.
    ZeroRefillInterval,
}

/// Why a check could not be answered.
#[derive(Debug, PartialEq, Eq)]
pub enum RateLimitError {
    /// The storage backend failed; the text is the backend's own account.
    Storage(String),
}

/// The outcome of one check.
#[derive(Clone, Copy, Debug, PartialEq, Eq, Structural)]
pub enum RateLimitDecision {
    /// The request may go on; `remaining` tokens are left after it.
    Allowed { remaining: u32 },
    /// The request is turned away; the caller may try again after `retry_after`.
    Limited { retry_after: Interval },
}

/// What a backend keeps for one key.
#[derive(Clone, Copy, Debug, PartialEq, Eq, Structural)]
pub struct TokenState {
    /// The tokens in the bucket.
    pub tokens: u32,
    /// The instant of the last refill.
    pub last_refill: Timestamp,
}

impl RateLimitError {
    /// The error as a line of text: the words `storage error: ` and then the
    /// backend's account.
    pub fn message(&self) -> (text: String)
        ensures
            text@ == "storage error: "@ + self->Storage_0@,
    {
        match self {
            RateLimitError::Storage(detail) => String::from_str("storage error: ").concat(
                detail.as_str(),
            ),
        }
    }
}

impl RateLimitConfig {
    /// A configuration is well formed when its refill interval is not empty.
    /// A capacity of zero is well formed: such a bucket never admits anything.
    pub open spec fn wf(&self) -> bool {
        self.refill_interval@ > 0
    }

    /// Whether `state` respects the capacity.
    pub open spec fn admits(&self, state: TokenState) -> bool {
        state.tokens <= self.capacity
    }

    /// The full refill intervals that lie between the last refill of `state`
    /// and `now`. A `now` before the last refill counts as no time at all.
    pub open spec fn intervals_elapsed(&self, state: TokenState, now: Timestamp) -> nat {
        elapsed_nanos(state.last_refill, now) / self.refill_interval@
    }

    /// The smaller of `total` and the capacity.
    pub open spec fn capped(&self, total: int) -> u32 {
        if total >= self.capacity {
            self.capacity
        } else {
            total as u32
        }
    }

    /// The bucket after the refill that is due at `now`. Where at least one
    /// full interval has passed, the bucket gains `refill_tokens` for each,
    /// up to the capacity, and its refill clock is set to `now`: progress
    /// into the next interval is dropped. Otherwise it is unchanged.
    pub open spec fn refilled(&self, state: TokenState, now: Timestamp) -> TokenState {
        let intervals = self.intervals_elapsed(state, now);
        if intervals >= 1 {
            TokenState {
                tokens: self.capped(state.tokens + intervals * self.refill_tokens),
                last_refill: now,
            }
        } else {
            state
        }
    }

    /// The bucket of a key that is seen for the first time at `now`.
    pub open spec fn fresh(&self, now: Timestamp) -> TokenState {
        TokenState { tokens: self.capacity, last_refill: now }
    }

    /// The bucket that a check at `now` draws on, given the stored `record`.
    pub open spec fn available(&self, record: Option<TokenState>, now: Timestamp) -> TokenState {
        match record {
            Some(state) => self.refilled(state, now),
            None => self.fresh(now),
        }
    }

    /// What a check at `now` answers, given the stored `record`.
    pub open spec fn decision(&self, record: Option<TokenState>, now: Timestamp)
        -> RateLimitDecision {
        let bucket = self.available(record, now);
        if bucket.tokens > 0 {
            RateLimitDecision::Allowed { remaining: (bucket.tokens - 1) as u32 }
        } else {
            RateLimitDecision::Limited { retry_after: self.refill_interval }
        }
    }

    /// What a check at `now` writes back: the bucket less one token where the
    /// request is allowed, and nothing where it is limited.
    pub open spec fn written(&self, record: Option<TokenState>, now: Timestamp) -> Option<
        TokenState,
    > {
        let bucket = self.available(record, now);
        if bucket.tokens > 0 {
            Some(
                TokenState {
                    tokens: (bucket.tokens - 1) as u32,
                    last_refill: bucket.last_refill,
                },
            )
        } else {
            None
        }
    }

    /// The stored record after a check at `now`.
    pub open spec fn record_after(&self, record: Option<TokenState>, now: Timestamp) -> Option<
        TokenState,
    > {
        match self.written(record, now) {
            Some(state) => Some(state),
            None => record,
        }
    }

    /// Accepts the configuration exactly when it is well formed.
    pub fn validate(&self) -> (r: Result<(), ConfigError>)
        ensures
            r is Ok <==> self.wf(),
            r matches Err(e) ==> e == ConfigError::ZeroRefillInterval,
    {
        if self.refill_interval.is_zero() {
            Err(ConfigError::ZeroRefillInterval)
        } else {
            Ok(())
        }
    }

    /// Applies to `state` the refill that is due at `now`.
    pub fn refill(&self, state: TokenState, now: Timestamp) -> (bucket: TokenState)
        requires
            self.wf(),
        ensures
            bucket == self.refilled(state, now),
            self.admits(state) ==> self.admits(bucket),
    {
        let elapsed: u128 = now.saturating_since(&state.last_refill).as_nanos();
        let intervals: u128 = elapsed / self.refill_interval.as_nanos();
        if intervals >= 1 {
            proof {
                lemma_div_nonincreasing(elapsed as int, self.refill_interval@ as int);
                assert(intervals <= 0x8000_0000_0000_0000_0000_0000);
                assert(intervals * self.refill_tokens <= 0x8000_0000_0000_0000_0000_0000
                    * 0xffff_ffff) by (nonlinear_arith)
                    requires
                        0 <= intervals <= 0x8000_0000_0000_0000_0000_0000,
                        0 <= self.refill_tokens <= 0xffff_ffff,
                ;
            }
            let gained: u128 = intervals * (self.refill_tokens as u128);
            let total: u128 = state.tokens as u128 + gained;
            let tokens: u32 = if total >= self.capacity as u128 {
                self.capacity
            } else {
                total as u32
            };
            TokenState { tokens, last_refill: now }
        } else {
            state
        }
    }

    /// Decides one request at `now` for a key whose stored record is
    /// `record`. Returns the decision and the state to write back, if any.
    pub fn decide(&self, record: Option<TokenState>, now: Timestamp) -> (r: (
        RateLimitDecision,
        Option<TokenState>,
    ))
        requires
            self.wf(),
        ensures
            r.0 == self.decision(record, now),
            r.1 == self.written(record, now),
    {
        let bucket = match record {
            Some(state) => self.refill(state, now),
            None => TokenState { tokens: self.capacity, last_refill: now },
        };
        if bucket.tokens > 0 {
            let remaining: u32 = bucket.tokens - 1;
            (
                RateLimitDecision::Allowed { remaining },
                Some(TokenState { tokens: remaining, last_refill: bucket.last_refill }),
            )
        } else {
            (RateLimitDecision::Limited { retry_after: self.refill_interval }, None)
        }
    }
}

/// What a backend holds: for each key that was written, by its characters,
/// the state last written for it.
pub type Records = Map<Seq<char>, TokenState>;

/// Where the bucket states are kept, one record for each key.
///
/// A backend stands for a map from keys to states. `get` reads the map and
/// `set` overwrites one entry of it. Either may fail; a backend that never
/// does says so through `reliable`.
pub trait StorageBackend {
    /// The records that the backend holds.
    spec fn records(&self) -> Records;

    /// Whether every `get` and `set` on this backend succeeds.
    spec fn reliable(&self) -> bool;

    /// The record of `key`, or `None` for a key that was never written.
    fn get(&self, key: &str) -> (r: Result<Option<TokenState>, RateLimitError>)
        ensures
            r matches Ok(found) ==> found == self.records().get(key@),
            self.reliable() ==> r is Ok,
    ;

    /// Replaces the record of `key` by `state`, whatever was there before.
    fn set(&mut self, key: &str, state: &TokenState) -> (r: Result<(), RateLimitError>)
        ensures
            r is Ok ==> final(self).records() == old(self).records().insert(key@, *state),
            old(self).reliable() ==> r is Ok && final(self).reliable(),
    ;
}

/// A rate limiter: a configuration and the backend that holds the buckets.
///
/// The limiter keeps nothing between calls. Each check reads the record of
/// its key, decides, and writes the record back where a token was taken.
pub struct RateLimiter<S: StorageBackend> {
    store: S,
    config: Accepted,
}

/// A configuration that was found well formed when the limiter was built.
struct Accepted {
    config: RateLimitConfig,
}

impl Accepted {
    #[verifier::type_invariant]
    spec fn inv(self) -> bool {
        self.config.wf()
    }
}

impl<S: StorageBackend> RateLimiter<S> {
    /// The configuration that the limiter was built with.
    pub closed spec fn spec_config(&self) -> RateLimitConfig {
        self.config.config
    }

    /// The backend that the limiter reads and writes.
    pub closed spec fn spec_store(&self) -> S {
        self.store
    }

    /// How a check of `key` at `now` takes the limiter from `pre` to `post`
    /// and what it answers.
    ///
    /// The configuration never changes. On a reliable backend the check
    /// succeeds. An answer is the decision that the stored record calls for;
    /// with `Allowed` the record of `key` is replaced by the bucket less one
    /// token and every other record stays. Whenever the stored record calls
    /// for `Limited`, the backend is left exactly as it was.
    pub open spec fn checked(
        pre: Self,
        post: Self,
        key: Seq<char>,
        now: Timestamp,
        r: Result<RateLimitDecision, RateLimitError>,
    ) -> bool {
        let config = pre.spec_config();
        let record = pre.spec_store().records().get(key);
        &&& post.spec_config() == config
        &&& pre.spec_store().reliable() ==> r is Ok && post.spec_store().reliable()
        &&& r matches Ok(decision) ==> {
            &&& decision == config.decision(record, now)
            &&& config.written(record, now) matches Some(state) ==> post.spec_store().records()
                == pre.spec_store().records().insert(key, state)
        }
        &&& config.written(record, now) is None ==> post.spec_store() == pre.spec_store()
    }

    /// A limiter over `store` with the buckets that `config` describes.
    pub fn new(store: S, config: RateLimitConfig) -> (limiter: Self)
        requires
            config.wf(),
        ensures
            limiter.spec_config() == config,
            limiter.spec_store() == store,
    {
        RateLimiter { store, config: Accepted { config } }
    }

    /// A limiter over `store` where `config` is well formed, and the reason
    /// for turning `config` down where it is not.
    pub fn try_new(store: S, config: RateLimitConfig) -> (r: Result<Self, ConfigError>)
        ensures
            r is Ok <==> config.wf(),
            r matches Ok(limiter) ==> limiter.spec_config() == config && limiter.spec_store()
                == store,
            r matches Err(e) ==> e == ConfigError::ZeroRefillInterval,
    {
        match config.validate() {
            Ok(()) => Ok(RateLimiter::new(store, config)),
            Err(e) => Err(e),
        }
    }

    /// The configuration.
    #[verifier::when_used_as_spec(spec_config)]
    pub fn config(&self) -> (config: RateLimitConfig)
        ensures
            config == self.spec_config(),
            config.wf(),
    {
        proof {
            use_type_invariant(&self.config);
        }
        self.config.config
    }

    /// The backend.
    pub fn store(&self) -> (store: &S)
        ensures
            *store == self.spec_store(),
    {
        &self.store
    }

    /// Decides one request for `key` at the instant `now`.
    pub fn check_at(&mut self, key: &str, now: Timestamp) -> (r: Result<
        RateLimitDecision,
        RateLimitError,
    >)
        ensures
            Self::checked(*old(self), *final(self), key@, now, r),
    {
        proof {
            use_type_invariant(&self.config);
        }
        let record = match self.store.get(key) {
            Ok(found) => found,
            Err(e) => {
                return Err(e);
            },
        };
        let (decision, write) = self.config.config.decide(record, now);
        match write {
            Some(state) => match self.store.set(key, &state) {
                Ok(()) => Ok(decision),
                Err(e) => Err(e),
            },
            None => Ok(decision),
        }
    }

    /// Decides one request for `key` at the instant that the system clock
    /// shows. Whatever the clock shows, the outcome is that of `check_at` at
    /// that instant.
    pub fn check(&mut self, key: &str) -> (r: Result<RateLimitDecision, RateLimitError>)
        ensures
            exists|at: Timestamp| #[trigger] Self::checked(*old(self), *final(self), key@, at, r),
    {
        let at = now();
        self.check_at(key, at)
    }
}

} // verus!
