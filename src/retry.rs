//! Retry and backoff policy of a logical call.
use vstd::arithmetic::power2::{lemma2_to64, lemma_pow2_strictly_increases, pow2};
use vstd::prelude::*;

verus! {

/// Delay before the first retry, in milliseconds.
pub const BASE_DELAY_MS: u64 = 500;

/// Longest delay between two attempts, in milliseconds.
pub const MAX_DELAY_MS: u64 = 8000;

/// Whether a response with this status is worth sending again.
pub open spec fn is_retryable(status: u16) -> bool {
    status == 408 || status == 409 || status == 429 || (500 <= status && status <= 599)
}

/// Backoff before retry number `attempt` (the first retry is number 1):
/// the base delay doubled for each earlier retry, capped.
pub open spec fn backoff_ms(attempt: nat) -> nat
    recommends
        attempt >= 1,
{
    let d = BASE_DELAY_MS * pow2((attempt - 1) as nat);
    if d <= MAX_DELAY_MS {
        d as nat
    } else {
        MAX_DELAY_MS as nat
    }
}

/// Decides whether a response status calls for another attempt.
pub fn should_retry(status: u16) -> (r: bool)
    ensures
        r == is_retryable(status),
{
    status == 408 || status == 409 || status == 429 || (500 <= status && status <= 599)
}

/// From the fifth retry on, the delay stays at its cap.
pub proof fn lemma_backoff_capped(attempt: nat)
    requires
        attempt >= 5,
    ensures
        backoff_ms(attempt) == MAX_DELAY_MS,
{
    lemma2_to64();
    if attempt > 5 {
        lemma_pow2_strictly_increases(4, (attempt - 1) as nat);
    }
}

/// Delay in milliseconds to wait before retry number `attempt`.
pub fn calculate_retry_delay(attempt: u32) -> (r: u64)
    requires
        attempt >= 1,
    ensures
        r == backoff_ms(attempt as nat),
{
    proof {
        lemma2_to64();
    }
    if attempt >= 5 {
        proof {
            lemma_backoff_capped(attempt as nat);
        }
        MAX_DELAY_MS
    } else {
        let mut d: u64 = BASE_DELAY_MS;
        let mut i: u32 = 1;
        while i < attempt
            invariant
                1 <= i <= attempt <= 4,
                d == BASE_DELAY_MS * pow2((i - 1) as nat),
                pow2(0) == 1 && pow2(1) == 2 && pow2(2) == 4 && pow2(3) == 8,
            decreases attempt - i,
        {
            d = d * 2;
            i = i + 1;
        }
        d
    }
}

/// What the pipeline does once a response has come back.
#[derive(Clone, Copy, Debug, PartialEq, Eq, Structural)]
pub enum RetryAction {
    /// Wait `delay_ms`, then send the same request again as retry number `attempt`.
    Retry { attempt: u32, delay_ms: u64 },
    /// Resolve the response that came back.
    Finish,
}

/// The step of the retry loop after `retries_done` retries and a response with `status`.
pub open spec fn next_action_spec(retries_done: u32, max_retries: u32, status: u16) -> RetryAction {
    if retries_done < max_retries && is_retryable(status) {
        RetryAction::Retry {
            attempt: (retries_done + 1) as u32,
            delay_ms: backoff_ms((retries_done + 1) as nat) as u64,
        }
    } else {
        RetryAction::Finish
    }
}

/// Decides the next step of a logical call, given how many retries were already
/// made, the retry budget, and the status of the response just received.
pub fn next_action(retries_done: u32, max_retries: u32, status: u16) -> (r: RetryAction)
    ensures
        r == next_action_spec(retries_done, max_retries, status),
{
    if retries_done < max_retries && should_retry(status) {
        let attempt = retries_done + 1;
        RetryAction::Retry { attempt, delay_ms: calculate_retry_delay(attempt) }
    } else {
        RetryAction::Finish
    }
}

/// Requests sent by a logical call that has made `retries_done` retries so far,
/// when the server answers the next requests with `statuses` in turn.
pub open spec fn requests_sent(max_retries: u32, retries_done: u32, statuses: Seq<u16>) -> nat
    decreases statuses.len(),
{
    if statuses.len() == 0 {
        0
    } else {
        match next_action_spec(retries_done, max_retries, statuses[0]) {
            RetryAction::Retry { attempt, .. } => 1 + requests_sent(
                max_retries,
                attempt,
                statuses.drop_first(),
            ),
            RetryAction::Finish => 1,
        }
    }
}

/// The status that a logical call ends on, when the server answers with `statuses`
/// in turn (`None` when the answers run out before the call ends).
pub open spec fn final_status(max_retries: u32, retries_done: u32, statuses: Seq<u16>) -> Option<u16>
    decreases statuses.len(),
{
    if statuses.len() == 0 {
        None
    } else {
        match next_action_spec(retries_done, max_retries, statuses[0]) {
            RetryAction::Retry { attempt, .. } => final_status(
                max_retries,
                attempt,
                statuses.drop_first(),
            ),
            RetryAction::Finish => Some(statuses[0]),
        }
    }
}

/// A logical call sends at most `max_retries + 1` requests, whatever the server
/// answers; and once `max_retries + 1` answers have come, the call has ended, on
/// the last of them or on an earlier one that was not retryable.
pub proof fn lemma_attempts_bounded(max_retries: u32, statuses: Seq<u16>)
    ensures
        requests_sent(max_retries, 0, statuses) <= max_retries + 1,
        statuses.len() > max_retries ==> final_status(max_retries, 0, statuses) is Some,
        statuses.len() > max_retries ==> final_status(max_retries, 0, statuses) == Some(
            statuses[requests_sent(max_retries, 0, statuses) - 1],
        ),
{
    lemma_attempts_bounded_from(max_retries, 0, statuses);
}

proof fn lemma_attempts_bounded_from(max_retries: u32, retries_done: u32, statuses: Seq<u16>)
    requires
        retries_done <= max_retries,
    ensures
        requests_sent(max_retries, retries_done, statuses) <= max_retries - retries_done + 1,
        requests_sent(max_retries, retries_done, statuses) <= statuses.len(),
        statuses.len() > max_retries - retries_done ==> final_status(
            max_retries,
            retries_done,
            statuses,
        ) == Some(statuses[requests_sent(max_retries, retries_done, statuses) - 1]),
    decreases statuses.len(),
{
    if statuses.len() > 0 {
        match next_action_spec(retries_done, max_retries, statuses[0]) {
            RetryAction::Retry { attempt, .. } => {
                let rest = statuses.drop_first();
                lemma_attempts_bounded_from(max_retries, attempt, rest);
                let n = requests_sent(max_retries, attempt, rest);
                if statuses.len() > max_retries - retries_done {
                    assert(statuses[n as int] == rest[n - 1]);
                }
            },
            RetryAction::Finish => {},
        }
    }
}

/// A response whose status is not retryable ends the call at once: one request,
/// ending on that status, whatever the budget.
pub proof fn lemma_terminal_status_ends_call(max_retries: u32, statuses: Seq<u16>)
    requires
        statuses.len() > 0,
        !is_retryable(statuses[0]),
    ensures
        requests_sent(max_retries, 0, statuses) == 1,
        final_status(max_retries, 0, statuses) == Some(statuses[0]),
{
}

/// When every response within the budget is retryable, the call uses the whole
/// budget: it sends `max_retries + 1` requests and ends on the last of them.
pub proof fn lemma_retryable_run_uses_budget(max_retries: u32, statuses: Seq<u16>)
    requires
        statuses.len() > max_retries,
        forall|i: int| 0 <= i < max_retries ==> is_retryable(#[trigger] statuses[i]),
    ensures
        requests_sent(max_retries, 0, statuses) == max_retries + 1,
        final_status(max_retries, 0, statuses) == Some(statuses[max_retries as int]),
{
    lemma_retryable_run_from(max_retries, 0, statuses);
}

proof fn lemma_retryable_run_from(max_retries: u32, retries_done: u32, statuses: Seq<u16>)
    requires
        retries_done <= max_retries,
        statuses.len() > max_retries - retries_done,
        forall|i: int| 0 <= i < max_retries - retries_done ==> is_retryable(#[trigger] statuses[i]),
    ensures
        requests_sent(max_retries, retries_done, statuses) == max_retries - retries_done + 1,
        final_status(max_retries, retries_done, statuses) == Some(
            statuses[max_retries - retries_done],
        ),
    decreases max_retries - retries_done,
{
    if retries_done < max_retries {
        let rest = statuses.drop_first();
        assert(is_retryable(statuses[0]));
        assert forall|i: int| 0 <= i < max_retries - (retries_done + 1) implies is_retryable(
            #[trigger] rest[i],
        ) by {
            assert(rest[i] == statuses[i + 1]);
        }
        lemma_retryable_run_from(max_retries, (retries_done + 1) as u32, rest);
        assert(rest[max_retries - (retries_done + 1)] == statuses[max_retries - retries_done]);
    }
}

} // verus!
