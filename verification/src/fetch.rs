//! The per-range fetch policy: when a range is skipped because its part
//! file already exists, and the bounded retry schedule for the HTTP GET
//! against the object store.
//!
//! The surrounding application performs the GET, reads the body and
//! writes the part file; each failure is handed to [`fetch_step`], which
//! decides between a backoff-and-retry and giving the range up.

use vstd::prelude::*;

use crate::errors::EngineError;

verus! {

/// How many GET attempts one range may make.
pub const FETCH_MAX_RETRIES: u64 = 20;

/// The backoff unit after a non-2xx status, in milliseconds.
pub const FETCH_STATUS_BACKOFF_MS: u64 = 100;

/// The backoff unit after a transport failure, in milliseconds.
pub const FETCH_TRANSPORT_BACKOFF_MS: u64 = 2000;

/// Why one GET attempt failed.
pub enum FetchFailure {
    /// The server answered with a non-2xx status.
    Status,
    /// The request or the body read failed.
    Transport,
}

/// The backoff before attempt `attempt + 1`: linear in the attempt
/// count, with a larger unit for transport failures.
pub open spec fn spec_fetch_backoff_ms(attempt: int, failure: FetchFailure) -> int {
    match failure {
        FetchFailure::Status => FETCH_STATUS_BACKOFF_MS * attempt,
        FetchFailure::Transport => FETCH_TRANSPORT_BACKOFF_MS * attempt,
    }
}

/// How long to sleep after failed attempt number `attempt`.
pub fn fetch_backoff_ms(attempt: u64, failure: FetchFailure) -> (ms: u64)
    requires
        attempt <= FETCH_MAX_RETRIES,
    ensures
        ms == spec_fetch_backoff_ms(attempt as int, failure),
{
    match failure {
        FetchFailure::Status => FETCH_STATUS_BACKOFF_MS * attempt,
        FetchFailure::Transport => FETCH_TRANSPORT_BACKOFF_MS * attempt,
    }
}

/// What the caller of [`fetch_step`] does next.
pub enum FetchStep {
    /// Sleep this many milliseconds, then try the GET again.
    Retry(u64),
    /// The retry budget is used up: the range has failed.
    Fail(EngineError),
}

/// One failed GET attempt. Each failure consumes one attempt; the range
/// retries after its backoff until [`FETCH_MAX_RETRIES`] attempts are
/// used up, which is a budget-exhausted error.
pub fn fetch_step(attempt: &mut u64, failure: FetchFailure) -> (r: FetchStep)
    requires
        *old(attempt) < FETCH_MAX_RETRIES,
    ensures
        *final(attempt) == *old(attempt) + 1,
        r == (if *old(attempt) + 1 >= FETCH_MAX_RETRIES {
            FetchStep::Fail(EngineError::BudgetExhausted)
        } else {
            FetchStep::Retry(spec_fetch_backoff_ms(*old(attempt) + 1, failure) as u64)
        }),
{
    *attempt = *attempt + 1;
    if *attempt >= FETCH_MAX_RETRIES {
        FetchStep::Fail(EngineError::BudgetExhausted)
    } else {
        FetchStep::Retry(fetch_backoff_ms(*attempt, failure))
    }
}

/// Whether a range task skips the network entirely: only a part of a
/// multi-part object is skipped, and only when its part file already
/// exists with exactly the range's size. A skipped range consumes no
/// bandwidth and no parallelism permit.
pub fn range_skip(total_parts: u64, local_size: Option<u64>, range_size: u64) -> (b: bool)
    ensures
        b == (total_parts > 1 && local_size == Some(range_size)),
{
    match local_size {
        Some(n) => total_parts > 1 && n == range_size,
        None => false,
    }
}

} // verus!
