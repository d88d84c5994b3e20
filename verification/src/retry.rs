use vstd::prelude::*;

use crate::error::LastReason;
use crate::error::ScrapeError;

verus! {

/// What one transport-level attempt produced: an HTTP response (status and
/// body), or a failure below HTTP (connection refused, timeout, bad
/// encoding). The host's transport builds one of these per attempt and hands
/// it to the policy.
#[derive(Debug, Clone, PartialEq, Eq)]
pub enum AttemptOutcome {
    Response { status: u16, body: String },
    TransportFailure { message: String },
}

/// How the policy reads an HTTP status.
#[derive(Debug, Clone, Copy, PartialEq, Eq, Structural)]
pub enum Classification {
    /// 2xx: return the body at once.
    Success,
    /// 5xx: transient, worth another attempt while the budget lasts.
    Retryable,
    /// Anything else (4xx above all): not retried.
    Terminal,
}

/// A 2xx status succeeds, a 5xx status is transient, every other status is
/// terminal: only server-side failures count as transient.
pub open spec fn spec_classify(status: u16) -> Classification {
    if 200 <= status <= 299 {
        Classification::Success
    } else if 500 <= status <= 599 {
        Classification::Retryable
    } else {
        Classification::Terminal
    }
}

pub fn classify(status: u16) -> (c: Classification)
    ensures
        c == spec_classify(status),
{
    if 200 <= status && status <= 299 {
        Classification::Success
    } else if 500 <= status && status <= 599 {
        Classification::Retryable
    } else {
        Classification::Terminal
    }
}

/// Linear backoff: the wait after attempt `n` is `n` seconds, not an
/// exponential schedule.
pub open spec fn spec_backoff_ms(attempt: u32) -> u64 {
    (1000 * attempt) as u64
}

pub fn backoff_ms(attempt: u32) -> (ms: u64)
    ensures
        ms == spec_backoff_ms(attempt),
        ms == 1000 * (attempt as int),
{
    1000u64 * (attempt as u64)
}

/// What the retry loop does next, once an attempt's outcome is in hand.
#[derive(Debug, PartialEq, Eq)]
pub enum Step {
    /// The logical fetch is over: hand this to the caller.
    Done { result: Result<String, ScrapeError> },
    /// Sleep this long, then make the next attempt.
    Retry { backoff_ms: u64 },
}

/// The whole retry decision for attempt number `attempt` (1-based, counting
/// the first attempt) out of a budget of `max_retries`:
/// a 2xx response returns its body at once; a status that classifies as
/// terminal fails at once with that status; a transient outcome (5xx or a
/// transport failure) asks for another attempt after a linear backoff while
/// attempts remain, and exhausts the budget otherwise, carrying the last
/// observed reason.
pub open spec fn spec_step(attempt: u32, max_retries: u32, outcome: AttemptOutcome) -> Step
    recommends
        1 <= attempt <= max_retries,
{
    match outcome {
        AttemptOutcome::Response { status, body } => {
            match spec_classify(status) {
                Classification::Success => Step::Done { result: Ok(body) },
                Classification::Terminal => Step::Done {
                    result: Err(ScrapeError::HttpStatus { status }),
                },
                Classification::Retryable => {
                    if attempt < max_retries {
                        Step::Retry { backoff_ms: spec_backoff_ms(attempt) }
                    } else {
                        Step::Done {
                            result: Err(ScrapeError::RetriesExhausted {
                                attempts: max_retries,
                                reason: LastReason::Status { status },
                            }),
                        }
                    }
                },
            }
        },
        AttemptOutcome::TransportFailure { message } => {
            if attempt < max_retries {
                Step::Retry { backoff_ms: spec_backoff_ms(attempt) }
            } else {
                Step::Done {
                    result: Err(ScrapeError::RetriesExhausted {
                        attempts: max_retries,
                        reason: LastReason::Transport { message },
                    }),
                }
            }
        },
    }
}

/// One decision of the retry policy, exactly as `spec_step` states it.
pub fn step(attempt: u32, max_retries: u32, outcome: AttemptOutcome) -> (s: Step)
    requires
        1 <= attempt <= max_retries,
    ensures
        s == spec_step(attempt, max_retries, outcome),
{
    match outcome {
        AttemptOutcome::Response { status, body } => {
            match classify(status) {
                Classification::Success => Step::Done { result: Ok(body) },
                Classification::Terminal => Step::Done {
                    result: Err(ScrapeError::HttpStatus { status }),
                },
                Classification::Retryable => {
                    if attempt < max_retries {
                        Step::Retry { backoff_ms: backoff_ms(attempt) }
                    } else {
                        Step::Done {
                            result: Err(ScrapeError::RetriesExhausted {
                                attempts: max_retries,
                                reason: LastReason::Status { status },
                            }),
                        }
                    }
                },
            }
        },
        AttemptOutcome::TransportFailure { message } => {
            if attempt < max_retries {
                Step::Retry { backoff_ms: backoff_ms(attempt) }
            } else {
                Step::Done {
                    result: Err(ScrapeError::RetriesExhausted {
                        attempts: max_retries,
                        reason: LastReason::Transport { message },
                    }),
                }
            }
        },
    }
}

/// What the retry loop returns, starting at attempt `attempt`, when the
/// successive attempts draw `outcomes` (`outcomes[i]` is attempt `i + 1`).
pub open spec fn run_from(attempt: u32, max_retries: u32, outcomes: Seq<AttemptOutcome>) -> Result<
    String,
    ScrapeError,
>
    recommends
        1 <= attempt <= max_retries,
        outcomes.len() >= max_retries,
    decreases max_retries - attempt,
{
    match spec_step(attempt, max_retries, outcomes[attempt - 1]) {
        Step::Done { result } => result,
        Step::Retry { .. } => run_from((attempt + 1) as u32, max_retries, outcomes),
    }
}

/// How many attempts the loop makes from attempt `attempt` on.
pub open spec fn attempts_from(attempt: u32, max_retries: u32, outcomes: Seq<AttemptOutcome>) -> int
    recommends
        1 <= attempt <= max_retries,
        outcomes.len() >= max_retries,
    decreases max_retries - attempt,
{
    match spec_step(attempt, max_retries, outcomes[attempt - 1]) {
        Step::Done { .. } => 1,
        Step::Retry { .. } => 1 + attempts_from((attempt + 1) as u32, max_retries, outcomes),
    }
}

/// The total time the loop sleeps in backoff from attempt `attempt` on.
pub open spec fn backoff_total_from(
    attempt: u32,
    max_retries: u32,
    outcomes: Seq<AttemptOutcome>,
) -> int
    recommends
        1 <= attempt <= max_retries,
        outcomes.len() >= max_retries,
    decreases max_retries - attempt,
{
    match spec_step(attempt, max_retries, outcomes[attempt - 1]) {
        Step::Done { .. } => 0,
        Step::Retry { backoff_ms } => backoff_ms + backoff_total_from(
            (attempt + 1) as u32,
            max_retries,
            outcomes,
        ),
    }
}

/// The result of a whole logical fetch whose attempts draw `outcomes`.
pub open spec fn spec_run(max_retries: u32, outcomes: Seq<AttemptOutcome>) -> Result<
    String,
    ScrapeError,
>
    recommends
        max_retries >= 1,
        outcomes.len() >= max_retries,
{
    run_from(1, max_retries, outcomes)
}

/// How many attempts a whole logical fetch makes.
pub open spec fn spec_attempts(max_retries: u32, outcomes: Seq<AttemptOutcome>) -> int
    recommends
        max_retries >= 1,
        outcomes.len() >= max_retries,
{
    attempts_from(1, max_retries, outcomes)
}

/// The total backoff a whole logical fetch sleeps.
pub open spec fn spec_backoff_total(max_retries: u32, outcomes: Seq<AttemptOutcome>) -> int
    recommends
        max_retries >= 1,
        outcomes.len() >= max_retries,
{
    backoff_total_from(1, max_retries, outcomes)
}

/// Replays recorded attempt outcomes through the policy: returns exactly what
/// the logical fetch returns on those outcomes, and how many attempts it
/// used. The host's fetch loop makes the same decisions one `step` at a time.
pub fn replay(max_retries: u32, outcomes: Vec<AttemptOutcome>) -> (r: (
    Result<String, ScrapeError>,
    u32,
))
    requires
        1 <= max_retries,
        outcomes@.len() >= max_retries,
    ensures
        r.0 == spec_run(max_retries, outcomes@),
        r.1 == spec_attempts(max_retries, outcomes@),
{
    let ghost all = outcomes@;
    let mut rest = outcomes;
    let mut attempt: u32 = 1;
    loop
        invariant
            all == outcomes@,
            1 <= attempt <= max_retries,
            all.len() >= max_retries,
            rest@ == all.skip(attempt - 1),
            run_from(1, max_retries, all) == run_from(attempt, max_retries, all),
            attempts_from(1, max_retries, all) == attempt - 1 + attempts_from(
                attempt,
                max_retries,
                all,
            ),
        decreases max_retries - attempt,
    {
        let o = rest.remove(0);
        assert(o == all[attempt - 1]);
        match step(attempt, max_retries, o) {
            Step::Done { result } => {
                return (result, attempt);
            },
            Step::Retry { .. } => {
                proof {
                    assert(attempt < max_retries);
                    assert(rest@ =~= all.skip(attempt as int));
                }
                attempt = attempt + 1;
            },
        }
    }
}

/// From attempt `attempt` on, the loop makes at least one more attempt and at
/// most the `max_retries - attempt + 1` that remain in the budget.
proof fn lemma_attempts_from_bounds(attempt: u32, max_retries: u32, outcomes: Seq<AttemptOutcome>)
    requires
        1 <= attempt <= max_retries,
        outcomes.len() >= max_retries,
    ensures
        1 <= attempts_from(attempt, max_retries, outcomes) <= max_retries - attempt + 1,
    decreases max_retries - attempt,
{
    match spec_step(attempt, max_retries, outcomes[attempt - 1]) {
        Step::Done { .. } => {},
        Step::Retry { .. } => {
            lemma_attempts_from_bounds((attempt + 1) as u32, max_retries, outcomes);
        },
    }
}

/// A logical fetch always makes its first attempt and never more than its
/// budget of `max_retries`, whatever the attempts draw.
pub proof fn lemma_attempts_within_budget(max_retries: u32, outcomes: Seq<AttemptOutcome>)
    requires
        max_retries >= 1,
        outcomes.len() >= max_retries,
    ensures
        1 <= spec_attempts(max_retries, outcomes) <= max_retries,
{
    lemma_attempts_from_bounds(1, max_retries, outcomes);
}

/// A target that answers every attempt with a server error (5xx) uses the
/// whole attempt budget of `max_retries` and ends with `RetriesExhausted`
/// carrying the last status, after `max_retries - attempt` further retries.
proof fn lemma_server_errors_from(attempt: u32, max_retries: u32, outcomes: Seq<AttemptOutcome>)
    requires
        1 <= attempt <= max_retries,
        outcomes.len() >= max_retries,
        forall|i: int|
            0 <= i < outcomes.len() ==> ((#[trigger] outcomes[i]) matches
                AttemptOutcome::Response { status, .. } && spec_classify(status)
                == Classification::Retryable),
    ensures
        attempts_from(attempt, max_retries, outcomes) == max_retries - attempt + 1,
        run_from(attempt, max_retries, outcomes) == Err::<String, ScrapeError>(
            ScrapeError::RetriesExhausted {
                attempts: max_retries,
                reason: LastReason::Status { status: outcomes[max_retries - 1]->status },
            },
        ),
    decreases max_retries - attempt,
{
    if attempt < max_retries {
        lemma_server_errors_from((attempt + 1) as u32, max_retries, outcomes);
    }
}

/// A target that always answers with a server error (5xx) makes exactly
/// `max_retries` attempts, and the fetch ends with `RetriesExhausted`
/// carrying the status of the last response.
pub proof fn lemma_server_errors_exhaust_retries(max_retries: u32, outcomes: Seq<AttemptOutcome>)
    requires
        max_retries >= 1,
        outcomes.len() >= max_retries,
        forall|i: int|
            0 <= i < outcomes.len() ==> ((#[trigger] outcomes[i]) matches
                AttemptOutcome::Response { status, .. } && spec_classify(status)
                == Classification::Retryable),
    ensures
        spec_attempts(max_retries, outcomes) == max_retries,
        spec_run(max_retries, outcomes) == Err::<String, ScrapeError>(
            ScrapeError::RetriesExhausted {
                attempts: max_retries,
                reason: LastReason::Status { status: outcomes[max_retries - 1]->status },
            },
        ),
{
    lemma_server_errors_from(1, max_retries, outcomes);
}

/// A 2xx answer on the first attempt ends the fetch at once: one attempt, the
/// body returned, and no backoff sleep at all — whatever the budget.
pub proof fn lemma_immediate_success(max_retries: u32, outcomes: Seq<AttemptOutcome>)
    requires
        max_retries >= 1,
        outcomes.len() >= max_retries,
        outcomes[0] matches AttemptOutcome::Response { status, .. } && spec_classify(status)
            == Classification::Success,
    ensures
        spec_attempts(max_retries, outcomes) == 1,
        spec_run(max_retries, outcomes) == Ok::<String, ScrapeError>(outcomes[0]->body),
        spec_backoff_total(max_retries, outcomes) == 0,
{
}

/// A status that classifies as terminal (a 4xx such as 404 above all) on the
/// first attempt is never retried: one attempt and `HttpStatus`, whatever the
/// budget.
pub proof fn lemma_client_error_not_retried(max_retries: u32, outcomes: Seq<AttemptOutcome>)
    requires
        max_retries >= 1,
        outcomes.len() >= max_retries,
        outcomes[0] matches AttemptOutcome::Response { status, .. } && spec_classify(status)
            == Classification::Terminal,
    ensures
        spec_attempts(max_retries, outcomes) == 1,
        spec_run(max_retries, outcomes) == Err::<String, ScrapeError>(
            ScrapeError::HttpStatus { status: outcomes[0]->status },
        ),
{
}

/// The wait between attempt `n` and attempt `n + 1` is `n` seconds: whenever
/// the policy retries after attempt `n`, the backoff it asks for is exactly
/// `1000 * n` milliseconds.
pub proof fn lemma_linear_backoff(attempt: u32, max_retries: u32, outcome: AttemptOutcome)
    requires
        1 <= attempt <= max_retries,
        spec_step(attempt, max_retries, outcome) is Retry,
    ensures
        spec_step(attempt, max_retries, outcome)->backoff_ms == 1000 * attempt,
{
}

} // verus!
