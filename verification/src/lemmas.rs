//! What holds of the token bucket, proved from its model.
//!
//! The model is that of the limiter: `RateLimitConfig::decision` says what a
//! check answers and `RateLimitConfig::record_after` what the backend holds
//! for the key afterwards. The contract of `RateLimiter::check_at` ties every
//! successful check to the two, so what is proved here of the model holds of
//! the limiter on any backend that keeps its contract.

use vstd::prelude::*;
use vstd::arithmetic::div_mod::lemma_fundamental_div_mod_converse_div;
use crate::limiter::{RateLimitConfig, RateLimitDecision, RateLimitError, RateLimiter};
use crate::limiter::{StorageBackend, TokenState};
use crate::time::{elapsed_nanos, Timestamp};

verus! {

/// The record of a key after `n` checks in a row, all at the instant `now`,
/// that started from `record`.
pub open spec fn after_burst(
    config: RateLimitConfig,
    record: Option<TokenState>,
    now: Timestamp,
    n: nat,
) -> Option<TokenState>
    decreases n,
{
    if n == 0 {
        record
    } else {
        config.record_after(after_burst(config, record, now, (n - 1) as nat), now)
    }
}

/// What the check after `n` earlier ones answers, all of them at `now`.
pub open spec fn burst_decision(
    config: RateLimitConfig,
    record: Option<TokenState>,
    now: Timestamp,
    n: nat,
) -> RateLimitDecision {
    config.decision(after_burst(config, record, now, n), now)
}

proof fn lemma_burst_from_fresh(config: RateLimitConfig, now: Timestamp, n: nat)
    requires
        config.wf(),
        1 <= n <= config.capacity,
    ensures
        after_burst(config, None, now, n) == Some(
            TokenState { tokens: (config.capacity - n) as u32, last_refill: now },
        ),
    decreases n,
{
    if n > 1 {
        lemma_burst_from_fresh(config, now, (n - 1) as nat);
        let before = TokenState { tokens: (config.capacity - (n - 1)) as u32, last_refill: now };
        lemma_no_refill_within_interval(config, before, now);
    } else {
        assert(after_burst(config, None, now, 0) == None::<TokenState>);
    }
}

/// Initial grant: of the checks that a key never seen before gets at one
/// instant, the first `capacity` are allowed, each leaving one token fewer,
/// and the next one is limited.
pub proof fn lemma_initial_grant(config: RateLimitConfig, now: Timestamp)
    requires
        config.wf(),
    ensures
        forall|i: nat|
            i < config.capacity ==> #[trigger] burst_decision(config, None, now, i)
                == (RateLimitDecision::Allowed { remaining: (config.capacity - 1 - i) as u32 }),
        burst_decision(config, None, now, config.capacity as nat) == (RateLimitDecision::Limited {
            retry_after: config.refill_interval,
        }),
{
    assert forall|i: nat| i < config.capacity implies #[trigger] burst_decision(
        config,
        None,
        now,
        i,
    ) == (RateLimitDecision::Allowed { remaining: (config.capacity - 1 - i) as u32 }) by {
        if i > 0 {
            lemma_burst_from_fresh(config, now, i);
            let before = TokenState { tokens: (config.capacity - i) as u32, last_refill: now };
            lemma_no_refill_within_interval(config, before, now);
        }
    }
    if config.capacity > 0 {
        lemma_burst_from_fresh(config, now, config.capacity as nat);
        lemma_no_refill_within_interval(config, TokenState { tokens: 0, last_refill: now }, now);
    }
}

/// Monotonic remaining: where two checks in a row are both allowed and no
/// full refill interval lies between the record's last refill and the second
/// check, the second leaves exactly one token fewer than the first.
pub proof fn lemma_remaining_decreases(
    config: RateLimitConfig,
    record: Option<TokenState>,
    first: Timestamp,
    second: Timestamp,
)
    requires
        config.wf(),
        config.decision(record, first) is Allowed,
        config.decision(config.record_after(record, first), second) is Allowed,
        config.intervals_elapsed(config.record_after(record, first).unwrap(), second) == 0,
    ensures
        config.decision(config.record_after(record, first), second)->remaining + 1
            == config.decision(record, first)->remaining,
{
}

/// Refill correctness: once `n` full refill intervals, and not yet one more,
/// have passed since the last refill, the bucket holds the smaller of the
/// capacity and its tokens plus `n` times `refill_tokens`, and its refill
/// clock stands at `now`. A bucket within the capacity stays within it and
/// loses nothing.
pub proof fn lemma_refill_after_intervals(
    config: RateLimitConfig,
    state: TokenState,
    now: Timestamp,
    n: nat,
)
    requires
        config.wf(),
        n >= 1,
        n * config.refill_interval@ <= elapsed_nanos(state.last_refill, now),
        elapsed_nanos(state.last_refill, now) < (n + 1) * config.refill_interval@,
    ensures
        config.intervals_elapsed(state, now) == n,
        config.refilled(state, now).tokens == config.capped(state.tokens + n * config.refill_tokens),
        config.refilled(state, now).tokens - state.tokens == config.capped(
            state.tokens + n * config.refill_tokens,
        ) - state.tokens,
        config.refilled(state, now).tokens <= config.capacity,
        config.refilled(state, now).last_refill == now,
        config.admits(state) ==> config.refilled(state, now).tokens >= state.tokens,
{
    let elapsed = elapsed_nanos(state.last_refill, now) as int;
    let interval = config.refill_interval@ as int;
    let rest = elapsed - n * interval;
    assert(rest < interval) by (nonlinear_arith)
        requires
            rest == elapsed - n * interval,
            elapsed < (n + 1) * interval,
    ;
    assert(elapsed == n * interval + rest);
    lemma_fundamental_div_mod_converse_div(elapsed, interval, n as int, rest);
    assert(n * config.refill_tokens >= 0) by (nonlinear_arith)
        requires
            n >= 0,
            config.refill_tokens >= 0,
    ;
}

/// Before a full refill interval has passed, a check draws on the bucket as
/// it is stored.
pub proof fn lemma_no_refill_within_interval(
    config: RateLimitConfig,
    state: TokenState,
    now: Timestamp,
)
    requires
        config.wf(),
        elapsed_nanos(state.last_refill, now) < config.refill_interval@,
    ensures
        config.intervals_elapsed(state, now) == 0,
        config.refilled(state, now) == state,
{
    let elapsed = elapsed_nanos(state.last_refill, now) as int;
    lemma_fundamental_div_mod_converse_div(elapsed, config.refill_interval@ as int, 0, elapsed);
}

/// No penalty on rejection: a check is limited exactly when it writes
/// nothing, and then the stored record is what it was.
pub proof fn lemma_limited_writes_nothing(
    config: RateLimitConfig,
    record: Option<TokenState>,
    now: Timestamp,
)
    ensures
        config.decision(record, now) is Limited <==> config.written(record, now) is None,
        config.decision(record, now) is Limited ==> config.record_after(record, now) == record,
        config.decision(record, now) is Limited ==> config.decision(record, now)->retry_after
            == config.refill_interval,
{
}

/// Zero capacity: with a capacity of zero every check is limited, whatever
/// the key and the instant, as long as the stored record, if there is one,
/// respects the capacity.
pub proof fn lemma_zero_capacity_limits(
    config: RateLimitConfig,
    record: Option<TokenState>,
    now: Timestamp,
)
    requires
        config.capacity == 0,
        record matches Some(state) ==> config.admits(state),
    ensures
        config.decision(record, now) == (RateLimitDecision::Limited {
            retry_after: config.refill_interval,
        }),
        config.record_after(record, now) == record,
{
}

/// A record within the capacity stays within it, and where the clock has not
/// gone back behind the last refill, the refill clock does not go back.
pub proof fn lemma_record_stays_valid(
    config: RateLimitConfig,
    record: Option<TokenState>,
    now: Timestamp,
)
    requires
        record matches Some(state) ==> config.admits(state),
    ensures
        config.record_after(record, now) matches Some(state) ==> config.admits(state),
        record is Some ==> config.record_after(record, now) is Some,
        (record matches Some(state) && state.last_refill@ <= now@) ==> config.record_after(
            record,
            now,
        ).unwrap().last_refill@ >= record.unwrap().last_refill@,
{
}

/// What a successful check leaves in the backend: the record of its key is
/// the one that the model gives, and the record of every other key is what
/// it was. Buckets of distinct keys never touch each other.
pub proof fn lemma_check_touches_one_key<S: StorageBackend>(
    pre: RateLimiter<S>,
    post: RateLimiter<S>,
    key: Seq<char>,
    now: Timestamp,
    r: Result<RateLimitDecision, RateLimitError>,
    other: Seq<char>,
)
    requires
        RateLimiter::checked(pre, post, key, now, r),
        r is Ok,
        other != key,
    ensures
        post.spec_store().records().get(key) == pre.spec_config().record_after(
            pre.spec_store().records().get(key),
            now,
        ),
        post.spec_store().records().get(other) == pre.spec_store().records().get(other),
{
}

/// A limited check leaves the backend as it found it, so a `get` after it
/// returns what a `get` before it would have.
pub proof fn lemma_limited_keeps_backend<S: StorageBackend>(
    pre: RateLimiter<S>,
    post: RateLimiter<S>,
    key: Seq<char>,
    now: Timestamp,
    r: Result<RateLimitDecision, RateLimitError>,
)
    requires
        RateLimiter::checked(pre, post, key, now, r),
        r matches Ok(decision) && decision is Limited,
    ensures
        post.spec_store() == pre.spec_store(),
        post.spec_store().records() == pre.spec_store().records(),
{
}

proof fn lemma_run_reaches<S: StorageBackend>(
    states: Seq<RateLimiter<S>>,
    outcomes: Seq<Result<RateLimitDecision, RateLimitError>>,
    key: Seq<char>,
    now: Timestamp,
    n: nat,
)
    requires
        states.len() == outcomes.len() + 1,
        forall|i: int|
            0 <= i < outcomes.len() ==> (#[trigger] outcomes[i]) is Ok && RateLimiter::checked(
                states[i],
                states[i + 1],
                key,
                now,
                outcomes[i],
            ),
        n < states.len(),
    ensures
        states[n as int].spec_config() == states[0].spec_config(),
        states[n as int].spec_store().records().get(key) == after_burst(
            states[0].spec_config(),
            states[0].spec_store().records().get(key),
            now,
            n,
        ),
    decreases n,
{
    if n > 0 {
        lemma_run_reaches(states, outcomes, key, now, (n - 1) as nat);
        assert(outcomes[n - 1] is Ok);
    }
}

/// A run of checks follows the model: where the checks of one key at one
/// instant all succeed, each taking the limiter from one state to the next,
/// the answers are those of `burst_decision` and the records of the key those
/// of `after_burst`, counted from the record that the backend held at first.
pub proof fn lemma_checks_follow_model<S: StorageBackend>(
    states: Seq<RateLimiter<S>>,
    outcomes: Seq<Result<RateLimitDecision, RateLimitError>>,
    key: Seq<char>,
    now: Timestamp,
)
    requires
        states.len() == outcomes.len() + 1,
        forall|i: int|
            0 <= i < outcomes.len() ==> (#[trigger] outcomes[i]) is Ok && RateLimiter::checked(
                states[i],
                states[i + 1],
                key,
                now,
                outcomes[i],
            ),
    ensures
        forall|i: int|
            0 <= i < outcomes.len() ==> (#[trigger] outcomes[i])->Ok_0 == burst_decision(
                states[0].spec_config(),
                states[0].spec_store().records().get(key),
                now,
                i as nat,
            ),
        forall|i: int|
            0 <= i < states.len() ==> (#[trigger] states[i]).spec_store().records().get(key)
                == after_burst(
                states[0].spec_config(),
                states[0].spec_store().records().get(key),
                now,
                i as nat,
            ),
{
    assert forall|i: int| 0 <= i < states.len() implies (#[trigger] states[i]).spec_store().records().get(
        key,
    ) == after_burst(
        states[0].spec_config(),
        states[0].spec_store().records().get(key),
        now,
        i as nat,
    ) by {
        lemma_run_reaches(states, outcomes, key, now, i as nat);
    }
    assert forall|i: int| 0 <= i < outcomes.len() implies (#[trigger] outcomes[i])->Ok_0
        == burst_decision(
        states[0].spec_config(),
        states[0].spec_store().records().get(key),
        now,
        i as nat,
    ) by {
        lemma_run_reaches(states, outcomes, key, now, i as nat);
    }
}

} // verus!
