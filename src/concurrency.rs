//! Optimistic concurrency: a write that finds its row changed fails with [`ConflictError`],
//! and the whole flow runs again, reloading everything it read.

use vstd::prelude::*;

verus! {

/// A write found that another process changed the row since it was read.
#[derive(Debug, Clone, Copy, PartialEq, Eq, Structural)]
pub struct ConflictError;

/// How many times a flow runs at most.
pub const MAX_RETRIES: u64 = 10;

/// What a retry loop does after an attempt.
#[derive(Debug, Clone, Copy, PartialEq, Eq, Structural)]
pub enum RetryStep {
    /// Hand the attempt's result to the caller.
    Return,
    /// Sleep this many seconds, then run the flow again.
    Retry { sleep_secs: u64 },
}

/// The step after attempt number `attempt` (counted from 1), given whether it failed with a
/// conflict: retry after `attempt` seconds while attempts remain, else return its result.
pub open spec fn retry_step(attempt: u64, conflict: bool) -> RetryStep {
    if conflict && attempt < MAX_RETRIES {
        RetryStep::Retry { sleep_secs: attempt }
    } else {
        RetryStep::Return
    }
}

/// Decides what follows attempt number `attempt`. A success, or an error that is no conflict,
/// is returned at once; a conflict is retried after a linear backoff, and the last attempt's
/// result is returned whatever it is.
pub fn after_attempt(attempt: u64, conflict: bool) -> (r: RetryStep)
    requires
        1 <= attempt <= MAX_RETRIES,
    ensures
        r == retry_step(attempt, conflict),
{
    if conflict && attempt < MAX_RETRIES {
        RetryStep::Retry { sleep_secs: attempt }
    } else {
        RetryStep::Return
    }
}

/// A flow runs at most [`MAX_RETRIES`] times, and sleeps one second more before each retry
/// than before the last.
pub proof fn retries_are_bounded(attempt: u64, conflict: bool)
    requires
        1 <= attempt,
    ensures
        attempt >= MAX_RETRIES ==> retry_step(attempt, conflict) == RetryStep::Return,
        retry_step(attempt, conflict) matches RetryStep::Retry { sleep_secs } ==> sleep_secs
            == attempt && attempt + 1 <= MAX_RETRIES,
{
}

} // verus!
