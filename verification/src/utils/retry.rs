//! The decisions of retrying an operation: which errors are worth another
//! attempt, and what follows each attempt. Waiting and running the operation
//! are the runtime's; the delay between attempts comes from the retry
//! strategy, which the runtime computes.
use vstd::prelude::*;
use crate::transfer::errors::TransferError;

verus! {

/// The errors that the default settings retry: HTTP errors, timeouts and
/// error answers of the server.
pub open spec fn retryable_by_default(e: TransferError) -> bool {
    e is Http || e is Timeout || e is ServerError
}

/// Whether the default settings retry after `error`.
pub fn default_should_retry(error: &TransferError) -> (r: bool)
    ensures
        r == retryable_by_default(*error),
{
    match error {
        TransferError::Http(_) | TransferError::Timeout | TransferError::ServerError { .. } => true,
        _ => false,
    }
}

/// How many attempts the default settings make.
pub fn default_max_attempts() -> (r: u32)
    ensures
        r == 3,
{
    3
}

/// What follows an attempt.
pub enum RetryStep<T> {
    /// The operation is over with this result.
    Finish(Result<T, TransferError>),
    /// Wait the strategy's delay for attempt `delay_index`, then make attempt
    /// `next_attempt`; `last_error` is what is returned should no attempt be
    /// left.
    Retry { delay_index: u32, next_attempt: u32, last_error: TransferError },
}

/// What follows attempt number `attempt` (from 0) of `max_attempts` that gave
/// `outcome`; `retryable` is what the retry predicate says of its error.
/// A success is returned, an error that is not to be retried is returned, and
/// a retryable error leads to the next attempt after a delay, or, after the
/// last attempt, is returned.
pub open spec fn retry_step<T>(attempt: u32, max_attempts: u32, outcome: Result<T, TransferError>, retryable: bool) -> RetryStep<T> {
    match outcome {
        Ok(v) => RetryStep::Finish(Ok(v)),
        Err(e) => if !retryable || attempt + 1 >= max_attempts {
            RetryStep::Finish(Err(e))
        } else {
            RetryStep::Retry { delay_index: attempt, next_attempt: (attempt + 1) as u32, last_error: e }
        },
    }
}

pub fn after_attempt<T>(attempt: u32, max_attempts: u32, outcome: Result<T, TransferError>, retryable: bool) -> (r:
    RetryStep<T>)
    requires
        attempt < max_attempts,
    ensures
        r == retry_step(attempt, max_attempts, outcome, retryable),
{
    match outcome {
        Ok(v) => RetryStep::Finish(Ok(v)),
        Err(e) => {
            if !retryable {
                RetryStep::Finish(Err(e))
            } else if attempt < max_attempts - 1 {
                RetryStep::Retry { delay_index: attempt, next_attempt: attempt + 1, last_error: e }
            } else {
                RetryStep::Finish(Err(e))
            }
        },
    }
}

/// What retrying gives when no attempt may be made at all.
pub fn no_attempt_result<T>(max_attempts: u32) -> (r: Option<Result<T, TransferError>>)
    ensures
        max_attempts == 0 ==> r == Some(Err::<T, TransferError>(TransferError::RetryLimitExceeded)),
        max_attempts > 0 ==> r is None,
{
    if max_attempts == 0 {
        Some(Err(TransferError::RetryLimitExceeded))
    } else {
        None
    }
}

/// Law: retrying never makes more attempts than allowed: after the last one the
/// operation is over, whatever it gave; and every retry moves on to the next
/// attempt, waiting the delay of the one that failed.
pub proof fn law_attempts_bounded<T>(attempt: u32, max_attempts: u32, outcome: Result<T, TransferError>, retryable: bool)
    requires
        attempt < max_attempts,
    ensures
        attempt + 1 == max_attempts ==> retry_step(attempt, max_attempts, outcome, retryable) is Finish,
        retry_step(attempt, max_attempts, outcome, retryable) matches RetryStep::Retry { delay_index, next_attempt, .. }
            ==> delay_index == attempt && next_attempt == attempt + 1 && next_attempt < max_attempts,
{
}

/// Law: a success is never retried, and neither is an error that the predicate
/// refuses.
pub proof fn law_only_retryable_errors_retry<T>(attempt: u32, max_attempts: u32, outcome: Result<T, TransferError>, retryable: bool)
    ensures
        retry_step(attempt, max_attempts, outcome, retryable) is Retry ==> (outcome is Err && retryable),
{
}

/// The largest `Duration`, in nanoseconds.
pub open spec fn max_duration_nanos() -> int {
    18_446_744_073_709_551_615int * 1_000_000_000 + 999_999_999
}

/// The delay of the linear strategy before retry number `attempt`, in
/// nanoseconds: the initial delay plus `attempt` increments, but never more
/// than `max_delay`. All durations are given in nanoseconds; the grown delay
/// must be a `Duration` itself, as adding and multiplying durations panics
/// otherwise.
pub fn linear_delay_nanos(initial: u128, increment: u128, max_delay: u128, attempt: u32) -> (r: u128)
    requires
        initial <= max_duration_nanos(),
        increment <= max_duration_nanos(),
        initial + increment * attempt <= max_duration_nanos(),
    ensures
        r == if initial + increment * attempt <= max_delay {
            initial + increment * attempt
        } else {
            max_delay as int
        },
{
    assert(increment * attempt <= max_duration_nanos()) by (nonlinear_arith)
        requires
            initial + increment * attempt <= max_duration_nanos(),
            0 <= initial,
    ;
    let grown = initial + increment * (attempt as u128);
    if grown <= max_delay {
        grown
    } else {
        max_delay
    }
}

/// The result and the number of calls of retrying from attempt `attempt` on,
/// when call number `k` of the operation gives `outcomes[k].0` and the retry
/// predicate says `outcomes[k].1` of its error: each attempt is followed as
/// `retry_step` says. With no attempt allowed, nothing is called and the
/// limit is reported.
pub open spec fn retry_run<T>(
    max_attempts: u32,
    outcomes: Seq<(Result<T, TransferError>, bool)>,
    attempt: u32,
) -> (Result<T, TransferError>, nat)
    decreases max_attempts - attempt,
{
    if max_attempts == 0 || attempt >= max_attempts || attempt >= outcomes.len() {
        (Err(TransferError::RetryLimitExceeded), attempt as nat)
    } else {
        match retry_step(attempt, max_attempts, outcomes[attempt as int].0, outcomes[attempt as int].1) {
            RetryStep::Finish(r) => (r, (attempt + 1) as nat),
            RetryStep::Retry { .. } => retry_run(max_attempts, outcomes, (attempt + 1) as u32),
        }
    }
}

/// Retryable errors from `a` up to `k` only lead on to attempt `k`.
proof fn lemma_run_skip<T>(max_attempts: u32, outcomes: Seq<(Result<T, TransferError>, bool)>, a: u32, k: u32)
    requires
        a <= k < max_attempts,
        k < outcomes.len(),
        forall|j: int| a <= j < k ==> (#[trigger] outcomes[j]).0 is Err && outcomes[j].1,
    ensures
        retry_run(max_attempts, outcomes, a) == retry_run(max_attempts, outcomes, k),
    decreases k - a,
{
    if a < k {
        assert(outcomes[a as int].0 is Err && outcomes[a as int].1);
        lemma_run_skip(max_attempts, outcomes, (a + 1) as u32, k);
    }
}

/// From attempt `a` on, retrying calls the operation at least once and never
/// beyond the last allowed attempt, and a success it returns is what one of
/// those calls gave.
proof fn lemma_run_calls<T>(max_attempts: u32, outcomes: Seq<(Result<T, TransferError>, bool)>, a: u32)
    requires
        a < max_attempts,
        outcomes.len() >= max_attempts,
    ensures
        a < retry_run(max_attempts, outcomes, a).1 <= max_attempts,
        retry_run(max_attempts, outcomes, a).0 is Ok ==> exists|j: int|
            a <= j < retry_run(max_attempts, outcomes, a).1 && (#[trigger] outcomes[j]).0
                == retry_run(max_attempts, outcomes, a).0,
    decreases max_attempts - a,
{
    let o = outcomes[a as int];
    if retry_step(a, max_attempts, o.0, o.1) is Retry {
        lemma_run_calls(max_attempts, outcomes, (a + 1) as u32);
    }
}

/// Law: with no attempt allowed the operation is never called and the retry
/// limit is reported; otherwise it is called at least once and at most
/// `max_attempts` times, and the result is a success only if a call gave that
/// success.
pub proof fn law_retry_calls_bounded<T>(max_attempts: u32, outcomes: Seq<(Result<T, TransferError>, bool)>)
    requires
        outcomes.len() >= max_attempts,
    ensures
        max_attempts == 0 ==> retry_run(max_attempts, outcomes, 0) == (
        Err::<T, TransferError>(TransferError::RetryLimitExceeded), 0nat),
        max_attempts > 0 ==> 1 <= retry_run(max_attempts, outcomes, 0).1 <= max_attempts,
        retry_run(max_attempts, outcomes, 0).0 is Ok ==> exists|j: int|
            0 <= j < retry_run(max_attempts, outcomes, 0).1 && (#[trigger] outcomes[j]).0
                == retry_run(max_attempts, outcomes, 0).0,
{
    if max_attempts > 0 {
        lemma_run_calls(max_attempts, outcomes, 0);
    }
}

/// Law: when every call before call `k` failed with a retryable error, and
/// call `k` succeeds or fails with an error not to be retried, retrying stops
/// after `k + 1` calls with what call `k` gave.
pub proof fn law_retry_stops_at_first_final<T>(
    max_attempts: u32,
    outcomes: Seq<(Result<T, TransferError>, bool)>,
    k: u32,
)
    requires
        k < max_attempts,
        outcomes.len() >= max_attempts,
        forall|j: int| 0 <= j < k ==> (#[trigger] outcomes[j]).0 is Err && outcomes[j].1,
        outcomes[k as int].0 is Ok || !outcomes[k as int].1,
    ensures
        retry_run(max_attempts, outcomes, 0) == (outcomes[k as int].0, (k + 1) as nat),
{
    lemma_run_skip(max_attempts, outcomes, 0, k);
}

/// Law: when every call fails with a retryable error, the operation is called
/// exactly `max_attempts` times and the last error is returned.
pub proof fn law_retry_all_retryable<T>(max_attempts: u32, outcomes: Seq<(Result<T, TransferError>, bool)>)
    requires
        max_attempts > 0,
        outcomes.len() >= max_attempts,
        forall|j: int| 0 <= j < max_attempts ==> (#[trigger] outcomes[j]).0 is Err && outcomes[j].1,
    ensures
        retry_run(max_attempts, outcomes, 0) == (
        outcomes[max_attempts - 1].0, max_attempts as nat),
{
    let last = (max_attempts - 1) as u32;
    lemma_run_skip(max_attempts, outcomes, 0, last);
    assert(outcomes[last as int].0 is Err && outcomes[last as int].1);
}

} // verus!
