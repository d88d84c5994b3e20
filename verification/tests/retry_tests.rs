use fast_scraper::error::LastReason;
use fast_scraper::error::ScrapeError;
use fast_scraper::retry::backoff_ms;
use fast_scraper::retry::classify;
use fast_scraper::retry::replay;
use fast_scraper::retry::step;
use fast_scraper::retry::AttemptOutcome;
use fast_scraper::retry::Classification;
use fast_scraper::retry::Step;

fn resp(status: u16, body: &str) -> AttemptOutcome {
    AttemptOutcome::Response {
        status,
        body: body.to_string(),
    }
}

fn transport(message: &str) -> AttemptOutcome {
    AttemptOutcome::TransportFailure {
        message: message.to_string(),
    }
}

#[test]
fn classification_boundaries() {
    assert_eq!(classify(200), Classification::Success);
    assert_eq!(classify(204), Classification::Success);
    assert_eq!(classify(299), Classification::Success);
    assert_eq!(classify(500), Classification::Retryable);
    assert_eq!(classify(503), Classification::Retryable);
    assert_eq!(classify(599), Classification::Retryable);
    assert_eq!(classify(404), Classification::Terminal);
    assert_eq!(classify(400), Classification::Terminal);
    assert_eq!(classify(301), Classification::Terminal);
    assert_eq!(classify(199), Classification::Terminal);
    assert_eq!(classify(300), Classification::Terminal);
    assert_eq!(classify(100), Classification::Terminal);
}

#[test]
fn always_server_error_uses_whole_budget() {
    let outcomes = vec![resp(500, ""), resp(502, ""), resp(503, "")];
    let (result, attempts) = replay(3, outcomes);
    assert_eq!(attempts, 3);
    assert_eq!(
        result,
        Err(ScrapeError::RetriesExhausted {
            attempts: 3,
            reason: LastReason::Status { status: 503 },
        })
    );
}

#[test]
fn always_server_error_single_attempt_budget() {
    let (result, attempts) = replay(1, vec![resp(500, "")]);
    assert_eq!(attempts, 1);
    assert_eq!(
        result,
        Err(ScrapeError::RetriesExhausted {
            attempts: 1,
            reason: LastReason::Status { status: 500 },
        })
    );
}

#[test]
fn success_on_first_attempt_is_one_attempt() {
    let outcomes = vec![resp(200, "hello"), resp(500, ""), resp(500, "")];
    let (result, attempts) = replay(3, outcomes);
    assert_eq!(attempts, 1);
    assert_eq!(result, Ok("hello".to_string()));
}

#[test]
fn client_error_is_never_retried() {
    let outcomes = vec![
        resp(404, ""),
        resp(200, "late"),
        resp(200, "late"),
        resp(200, "late"),
        resp(200, "late"),
    ];
    let (result, attempts) = replay(5, outcomes);
    assert_eq!(attempts, 1);
    assert_eq!(result, Err(ScrapeError::HttpStatus { status: 404 }));
}

#[test]
fn transport_failure_is_retried_then_succeeds() {
    let outcomes = vec![transport("connection refused"), resp(200, "ok"), resp(200, "other")];
    let (result, attempts) = replay(3, outcomes);
    assert_eq!(attempts, 2);
    assert_eq!(result, Ok("ok".to_string()));
}

#[test]
fn exhaustion_carries_last_transport_reason() {
    let outcomes = vec![resp(500, ""), transport("timed out")];
    let (result, attempts) = replay(2, outcomes);
    assert_eq!(attempts, 2);
    assert_eq!(
        result,
        Err(ScrapeError::RetriesExhausted {
            attempts: 2,
            reason: LastReason::Transport {
                message: "timed out".to_string(),
            },
        })
    );
}

#[test]
fn backoff_is_linear_not_exponential() {
    assert_eq!(backoff_ms(1), 1000);
    assert_eq!(backoff_ms(2), 2000);
    assert_eq!(backoff_ms(3), 3000);
    assert_eq!(step(1, 3, resp(500, "")), Step::Retry { backoff_ms: 1000 });
    assert_eq!(step(2, 3, transport("reset")), Step::Retry { backoff_ms: 2000 });
}

#[test]
fn success_step_returns_body_without_backoff() {
    let s = step(1, 3, resp(201, "created"));
    assert_eq!(
        s,
        Step::Done {
            result: Ok("created".to_string()),
        }
    );
}

#[test]
fn last_attempt_server_error_is_terminal() {
    let s = step(3, 3, resp(500, ""));
    assert_eq!(
        s,
        Step::Done {
            result: Err(ScrapeError::RetriesExhausted {
                attempts: 3,
                reason: LastReason::Status { status: 500 },
            }),
        }
    );
}
