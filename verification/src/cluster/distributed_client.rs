//! The decision core of the distributed client: after a failed attempt,
//! either back off and retry (linear backoff, 50 ms more per attempt) or
//! surface an error. The surrounding loop — resolving the owner node,
//! issuing the call under a timeout, sleeping — performs I/O and lives
//! with the transport; it feeds every failure through `retry_step`.
use vstd::prelude::*;
use crate::error::client_error::ClientError;

verus! {

/// What the router does after a failed attempt.
pub enum RetryStep {
    /// Sleep this long, then try again (re-resolving the owner node).
    Retry { backoff_ms: u64 },
    /// Give up and surface this error.
    Fail(ClientError),
}

/// The decision rule after attempt `attempt` (counted from zero) out of
/// `max_retries` failed with `err`: a retryable failure with attempts
/// left waits `50 ms × (attempt + 1)`; a retryable failure on the last
/// attempt surfaces `MaxRetriesExceeded`; a terminal failure surfaces
/// itself at once.
pub open spec fn spec_retry_step(err: ClientError, attempt: u32, max_retries: u32) -> RetryStep {
    if err.spec_is_retryable() && attempt + 1 < max_retries {
        RetryStep::Retry { backoff_ms: (50 * (attempt + 1)) as u64 }
    } else if err.spec_is_retryable() {
        RetryStep::Fail(ClientError::MaxRetriesExceeded)
    } else {
        RetryStep::Fail(err)
    }
}

/// Decides what to do after a failed attempt; exactly `spec_retry_step`.
pub fn retry_step(err: ClientError, attempt: u32, max_retries: u32) -> (r: RetryStep)
    ensures
        r == spec_retry_step(err, attempt, max_retries),
{
    let retryable = err.is_retryable();
    if retryable && attempt < u32::MAX && attempt + 1 < max_retries {
        RetryStep::Retry { backoff_ms: 50 * (attempt as u64 + 1) }
    } else if retryable {
        RetryStep::Fail(ClientError::MaxRetriesExceeded)
    } else {
        RetryStep::Fail(err)
    }
}

} // verus!
