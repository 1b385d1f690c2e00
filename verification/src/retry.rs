//! The retry policy: which classified errors are worth retrying, the capped
//! exponential backoff delay, and the bounded per-operation retry budget,
//! expressed as a small state machine so the termination bound is explicit.

use vstd::prelude::*;
use crate::errors::{spec_is_unauthorized, StorageBackendError};

verus! {

/// Retryable attempts allowed per logical operation (so up to three tries).
pub const MAX_RETRIES: usize = 2;

/// First backoff delay, in milliseconds.
pub const RETRY_BASE_DELAY_MS: u64 = 400;

/// Ceiling on any backoff delay, in milliseconds.
pub const RETRY_MAX_DELAY_MS: u64 = 2000;

/// Whether a classified error is transient enough to retry: transport
/// failures always are; HTTP statuses and envelope codes only when they are
/// server errors (5xx) or 408/429; nothing else is.
pub open spec fn spec_should_retry(e: StorageBackendError) -> bool {
    match e {
        StorageBackendError::TransportFailure => true,
        StorageBackendError::HttpStatusFailure { status } =>
            (500 <= status && status <= 599) || status == 408 || status == 429,
        StorageBackendError::ApiError { code, .. } =>
            (500 <= code && code <= 599) || code == 408 || code == 429,
        _ => false,
    }
}

/// Whether `err` should be retried.
pub fn should_retry_error(err: &StorageBackendError) -> (r: bool)
    ensures
        r == spec_should_retry(*err),
{
    match err {
        StorageBackendError::TransportFailure => true,
        StorageBackendError::HttpStatusFailure { status } => {
            let s = *status;
            (500 <= s && s <= 599) || s == 408 || s == 429
        },
        StorageBackendError::ApiError { code, .. } => {
            let c = *code;
            (500 <= c && c <= 599) || c == 408 || c == 429
        },
        _ => false,
    }
}

/// Law: an authorization failure is never retried by the generic policy.
pub proof fn lemma_unauthorized_never_retried(e: StorageBackendError)
    requires
        spec_is_unauthorized(e),
    ensures
        !spec_should_retry(e),
{
}

/// The exponent used for the backoff of a given attempt: attempt 1 doubles
/// nothing, and the exponent itself never grows past 5.
pub open spec fn spec_backoff_shift(attempt: int) -> nat {
    if attempt <= 1 {
        0
    } else if attempt - 1 <= 5 {
        (attempt - 1) as nat
    } else {
        5
    }
}

/// Two to the `shift`-th power.
pub open spec fn spec_backoff_factor(shift: nat) -> nat
    decreases shift,
{
    if shift == 0 {
        1
    } else {
        2 * spec_backoff_factor((shift - 1) as nat)
    }
}

proof fn lemma_backoff_factor_increases(a: nat, b: nat)
    requires
        a < b,
    ensures
        spec_backoff_factor(a) < spec_backoff_factor(b),
    decreases b,
{
    if a == 0 {
        lemma_backoff_factor_positive(b);
        if b == 1 {
        } else {
            lemma_backoff_factor_increases(0, (b - 1) as nat);
        }
    } else {
        lemma_backoff_factor_increases((a - 1) as nat, (b - 1) as nat);
    }
}

proof fn lemma_backoff_factor_positive(a: nat)
    ensures
        spec_backoff_factor(a) >= 1,
    decreases a,
{
    if a > 0 {
        lemma_backoff_factor_positive((a - 1) as nat);
    }
}

/// The backoff delay before retrying `attempt`: the base delay doubled per
/// attempt starting at attempt 1, capped at the maximum delay.
pub open spec fn spec_retry_delay_ms(attempt: int) -> int {
    let base = (RETRY_BASE_DELAY_MS as int) * spec_backoff_factor(spec_backoff_shift(attempt));
    if base <= RETRY_MAX_DELAY_MS as int {
        base
    } else {
        RETRY_MAX_DELAY_MS as int
    }
}

/// The backoff delay in milliseconds before retrying `attempt`.
pub fn retry_delay(attempt: usize) -> (d: u64)
    ensures
        d as int == spec_retry_delay_ms(attempt as int),
        d <= RETRY_MAX_DELAY_MS,
{
    let shift: u64 = if attempt <= 1 {
        0
    } else if attempt - 1 <= 5 {
        (attempt - 1) as u64
    } else {
        5
    };
    assert(shift as nat == spec_backoff_shift(attempt as int));
    let factor: u64 = if shift == 0 {
        1
    } else if shift == 1 {
        2
    } else if shift == 2 {
        4
    } else if shift == 3 {
        8
    } else if shift == 4 {
        16
    } else {
        32
    };
    assert(factor as nat == spec_backoff_factor(shift as nat)) by {
        reveal_with_fuel(spec_backoff_factor, 6);
    };
    let base: u64 = RETRY_BASE_DELAY_MS * factor;
    if base <= RETRY_MAX_DELAY_MS {
        base
    } else {
        RETRY_MAX_DELAY_MS
    }
}

/// Law: backoff delays never decrease with the attempt number, grow strictly
/// until they reach the cap, and never exceed the cap.
pub proof fn lemma_retry_delay_monotone(a: int, b: int)
    requires
        1 <= a < b,
    ensures
        spec_retry_delay_ms(a) <= spec_retry_delay_ms(b),
        spec_retry_delay_ms(b) <= RETRY_MAX_DELAY_MS as int,
        spec_retry_delay_ms(a) < spec_retry_delay_ms(b)
            || spec_retry_delay_ms(a) == RETRY_MAX_DELAY_MS as int,
{
    let sa = spec_backoff_shift(a);
    let sb = spec_backoff_shift(b);
    lemma_backoff_factor_positive(sa);
    lemma_backoff_factor_positive(sb);
    if sa < sb {
        lemma_backoff_factor_increases(sa, sb);
    } else {
        assert(sa == 5 && sb == 5);
        assert(spec_backoff_factor(5) == 32) by {
            reveal_with_fuel(spec_backoff_factor, 6);
        };
    }
}

/// What a retry loop does after one failed attempt: wait and try again, or
/// give up and surface the error.
#[derive(Debug, Clone, PartialEq, Eq)]
pub enum RetryDecision {
    /// Sleep this many milliseconds, then make the next attempt.
    RetryAfterMs(u64),
    /// The error is terminal for this operation; surface it.
    Terminal,
}

/// The per-operation retry budget: how many retryable failures this logical
/// operation has already absorbed.
#[derive(Debug, Clone, PartialEq, Eq)]
pub struct RetryState {
    pub attempt: usize,
}

impl RetryState {
    /// A fresh budget for one logical operation.
    pub fn new() -> (s: Self)
        ensures
            s.attempt == 0,
    {
        RetryState { attempt: 0 }
    }

    /// Whether the next failure with error `e` would be retried.
    pub open spec fn spec_will_retry(self, e: StorageBackendError) -> bool {
        spec_should_retry(e) && self.attempt < MAX_RETRIES
    }

    /// Decides what to do about one failed attempt: a retryable error within
    /// the budget costs one retry and waits the backoff delay of the new
    /// attempt count; anything else is terminal and leaves the state alone.
    pub fn on_error(&mut self, err: &StorageBackendError) -> (d: RetryDecision)
        ensures
            old(self).spec_will_retry(*err) ==> {
                &&& d == RetryDecision::RetryAfterMs(
                    spec_retry_delay_ms(old(self).attempt + 1) as u64,
                )
                &&& final(self).attempt == old(self).attempt + 1
            },
            !old(self).spec_will_retry(*err) ==> d == RetryDecision::Terminal && *final(self)
                == *old(self),
            final(self).attempt <= MAX_RETRIES || final(self).attempt == old(self).attempt,
    {
        if should_retry_error(err) && self.attempt < MAX_RETRIES {
            self.attempt = self.attempt + 1;
            RetryDecision::RetryAfterMs(retry_delay(self.attempt))
        } else {
            RetryDecision::Terminal
        }
    }
}

/// Law: within one operation, a later retry waits no shorter than an
/// earlier one, and strictly longer unless the earlier delay already
/// reached the cap. `s1` and `s2` are the budget states at the two
/// failures; retrying advances the attempt count, so the later failure sees
/// the larger one.
pub proof fn lemma_backoff_increases_per_operation(
    s1: RetryState,
    s2: RetryState,
    e1: StorageBackendError,
    e2: StorageBackendError,
)
    requires
        s1.spec_will_retry(e1),
        s2.spec_will_retry(e2),
        s1.attempt < s2.attempt,
    ensures
        spec_retry_delay_ms(s1.attempt + 1) <= spec_retry_delay_ms(s2.attempt + 1),
        spec_retry_delay_ms(s1.attempt + 1) < spec_retry_delay_ms(s2.attempt + 1)
            || spec_retry_delay_ms(s1.attempt + 1) == RETRY_MAX_DELAY_MS as int,
{
    lemma_retry_delay_monotone(s1.attempt + 1, s2.attempt + 1);
}

} // verus!
