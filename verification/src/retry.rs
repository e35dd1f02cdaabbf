//! Retry policy of the fetch service: which failures are retried, how long to
//! wait before each retry, and when to stop.

use vstd::prelude::*;
use vstd::arithmetic::power2::{lemma2_to64, lemma2_to64_rest, lemma_pow2_strictly_increases, lemma_pow2_unfold, pow2};
use vstd::bits::lemma_u64_shl_is_mul;
use crate::response::{status_action, StatusActionView};
use crate::types::{CrawlError, CrawlErrorView, CrawlResponse};

verus! {

/// Server errors, rate limits and bad gateways are worth retrying.
pub open spec fn retryable_error(e: CrawlErrorView) -> bool {
    e is ServerError || e is RateLimited || e is BadGateway
}

/// Check whether a `CrawlError` is retryable (server errors, rate limits, bad gateways).
pub fn is_retryable(e: &CrawlError) -> (r: bool)
    ensures
        r == retryable_error(e@),
{
    match e {
        CrawlError::ServerError(_) | CrawlError::RateLimited(_) | CrawlError::BadGateway(_) => true,
        _ => false,
    }
}

/// The largest attempt number whose back-off delay fits in a `u64` of
/// milliseconds.
pub open spec fn max_backoff_attempt() -> nat {
    57
}

/// Milliseconds to wait after failed attempt number `attempt` (counted from
/// zero): 100 ms, doubling with every attempt.
pub open spec fn backoff_ms(attempt: nat) -> nat {
    100 * pow2(attempt)
}

/// The delay before retrying after attempt `attempt` (`100 * (1 << attempt)`).
pub fn backoff_delay_ms(attempt: u32) -> (r: u64)
    requires
        attempt <= max_backoff_attempt(),
    ensures
        r == backoff_ms(attempt as nat),
{
    let shift: u64 = attempt as u64;
    proof {
        lemma2_to64();
        lemma2_to64_rest();
        if shift < 57 {
            lemma_pow2_strictly_increases(shift as nat, 57);
        }
        lemma_u64_shl_is_mul(1, shift);
    }
    100 * (1u64 << shift)
}

/// The back-off doubles from one attempt to the next.
pub proof fn lemma_backoff_doubles(attempt: nat)
    ensures
        backoff_ms(attempt + 1) == 2 * backoff_ms(attempt),
{
    lemma_pow2_unfold(attempt + 1);
}

/// The result of one fetch attempt as plain values: the response status or
/// the error.
pub enum AttemptView {
    Response(u16),
    Failure(CrawlErrorView),
}

/// The plain value of an attempt's result.
pub open spec fn attempt_view(outcome: Result<CrawlResponse, CrawlError>) -> AttemptView {
    match outcome {
        Ok(resp) => AttemptView::Response(resp.status),
        Err(e) => AttemptView::Failure(e@),
    }
}

/// After attempt `attempt` of `retry_count + 1` with result `outcome`, the
/// service retries: attempts remain, and the response status is one of the
/// retry codes or the error is retryable.
pub open spec fn wants_retry(attempt: nat, retry_count: nat, retry_codes: Seq<u16>, outcome: AttemptView) -> bool {
    &&& attempt < retry_count
    &&& match outcome {
        AttemptView::Response(status) => retry_codes.contains(status),
        AttemptView::Failure(e) => retryable_error(e),
    }
}

/// What the fetch service does after an attempt.
#[derive(Debug, Clone, Copy, PartialEq, Eq)]
pub enum RetryStep {
    /// Hand the attempt's result to the caller.
    Deliver,
    /// Wait the back-off for this attempt, then fetch again.
    Retry,
}

/// Decides whether to retry after attempt `attempt` (counted from zero).
pub fn next_step(
    attempt: u32,
    retry_count: u32,
    retry_codes: &Vec<u16>,
    outcome: &Result<CrawlResponse, CrawlError>,
) -> (r: RetryStep)
    ensures
        r is Retry <==> wants_retry(attempt as nat, retry_count as nat, retry_codes@, attempt_view(*outcome)),
{
    if attempt >= retry_count {
        return RetryStep::Deliver;
    }
    let retry = match outcome {
        Ok(resp) => {
            let mut found = false;
            let mut i: usize = 0;
            while i < retry_codes.len()
                invariant
                    i <= retry_codes@.len(),
                    found <==> exists|k: int| 0 <= k < i && retry_codes@[k] == resp.status,
                decreases retry_codes@.len() - i,
            {
                if retry_codes[i] == resp.status {
                    found = true;
                }
                i = i + 1;
            }
            found
        },
        Err(e) => is_retryable(e),
    };
    if retry {
        RetryStep::Retry
    } else {
        RetryStep::Deliver
    }
}

/// How many attempts the service makes when the successive attempts yield
/// `outcomes` (starting at attempt number `attempt`).
pub open spec fn attempts_made(attempt: nat, retry_count: nat, retry_codes: Seq<u16>, outcomes: Seq<AttemptView>) -> nat
    decreases outcomes.len(),
{
    if outcomes.len() == 0 {
        0
    } else if wants_retry(attempt, retry_count, retry_codes, outcomes[0]) {
        1 + attempts_made(attempt + 1, retry_count, retry_codes, outcomes.drop_first())
    } else {
        1
    }
}

/// Whatever the attempts yield, the service makes at most `retry_count + 1`
/// of them: the last permitted attempt is always delivered.
pub proof fn lemma_attempts_bounded(attempt: nat, retry_count: nat, retry_codes: Seq<u16>, outcomes: Seq<AttemptView>)
    requires
        attempt <= retry_count,
    ensures
        attempts_made(attempt, retry_count, retry_codes, outcomes) <= retry_count + 1 - attempt,
    decreases outcomes.len(),
{
    if outcomes.len() > 0 && wants_retry(attempt, retry_count, retry_codes, outcomes[0]) {
        lemma_attempts_bounded(attempt + 1, retry_count, retry_codes, outcomes.drop_first());
    }
}

/// Errors that are not retryable, and responses whose status is not a retry
/// code, are delivered at once.
pub proof fn lemma_final_outcomes_delivered(attempt: nat, retry_count: nat, retry_codes: Seq<u16>, outcome: AttemptView)
    requires
        match outcome {
            AttemptView::Response(status) => !retry_codes.contains(status),
            AttemptView::Failure(e) => !retryable_error(e),
        },
    ensures
        !wants_retry(attempt, retry_count, retry_codes, outcome),
{
}


/// Of the statuses that fail a fetch outright, exactly the rate limit (429)
/// and the server-side failures (500, 502, 503) are retried.
pub proof fn lemma_failed_statuses_retry_policy(status: u16, url: Seq<char>)
    ensures
        status_action(status, url) matches StatusActionView::Fail(e) ==> (retryable_error(e) <==> (
        status == 429 || status == 500 || status == 502 || status == 503)),
{
}


/// A failed attempt is retried exactly when attempts remain and the failure
/// is a server error, a rate limit or a bad gateway.
pub proof fn lemma_failures_retried(attempt: nat, retry_count: nat, retry_codes: Seq<u16>, e: CrawlErrorView)
    ensures
        wants_retry(attempt, retry_count, retry_codes, AttemptView::Failure(e)) <==> attempt < retry_count && (
        e is ServerError || e is RateLimited || e is BadGateway),
{
}

/// A response is retried exactly when attempts remain and its status is one
/// of the retry codes.
pub proof fn lemma_responses_retried(attempt: nat, retry_count: nat, retry_codes: Seq<u16>, status: u16)
    ensures
        wants_retry(attempt, retry_count, retry_codes, AttemptView::Response(status)) <==> attempt < retry_count
            && exists|i: int| 0 <= i < retry_codes.len() && retry_codes[i] == status,
{
}

} // verus!
