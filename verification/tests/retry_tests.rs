use redstone::cluster::distributed_client::{retry_step, RetryStep};
use redstone::error::client_error::{ClientError, StatusCode};

fn unavailable() -> ClientError {
    ClientError::GrpcStatus(StatusCode::Unavailable, "server down".to_string())
}

#[test]
fn retryable_classification() {
    assert!(ClientError::Timeout.is_retryable());
    assert!(ClientError::Transport("broken pipe".to_string()).is_retryable());
    assert!(unavailable().is_retryable());
    assert!(ClientError::GrpcStatus(StatusCode::DeadlineExceeded, String::new()).is_retryable());
    assert!(ClientError::GrpcStatus(StatusCode::Internal, String::new()).is_retryable());

    assert!(!ClientError::GrpcStatus(StatusCode::AlreadyExists, String::new()).is_retryable());
    assert!(!ClientError::GrpcStatus(StatusCode::NotFound, String::new()).is_retryable());
    assert!(!ClientError::GrpcStatus(StatusCode::InvalidArgument, String::new()).is_retryable());
    assert!(!ClientError::GrpcStatus(StatusCode::ResourceExhausted, String::new()).is_retryable());
    assert!(!ClientError::NoNodesAvailable.is_retryable());
    assert!(!ClientError::MaxRetriesExceeded.is_retryable());
    assert!(!ClientError::ServerError("boom".to_string()).is_retryable());
}

#[test]
fn retry_unavailable_twice_then_success() {
    // Three attempts allowed; the first two fail with Unavailable, the
    // third succeeds. The router must observe backoffs of 50 and 100 ms.
    let max_retries = 3;
    let mut attempts = 0;
    let mut backoffs = Vec::new();
    let mut outcome: Option<Result<(), ClientError>> = None;

    for attempt in 0..max_retries {
        attempts += 1;
        let failed = attempt < 2;
        if !failed {
            outcome = Some(Ok(()));
            break;
        }
        match retry_step(unavailable(), attempt, max_retries) {
            RetryStep::Retry { backoff_ms } => backoffs.push(backoff_ms),
            RetryStep::Fail(e) => {
                outcome = Some(Err(e));
                break;
            }
        }
    }

    assert_eq!(attempts, 3);
    assert_eq!(backoffs, vec![50, 100]);
    assert!(matches!(outcome, Some(Ok(()))));
}

#[test]
fn non_retryable_surfaces_immediately() {
    // AlreadyExists is terminal: one attempt, the error itself surfaces.
    let err = ClientError::GrpcStatus(StatusCode::AlreadyExists, "dup".to_string());
    let step = retry_step(err, 0, 3);
    match step {
        RetryStep::Fail(ClientError::GrpcStatus(code, message)) => {
            assert_eq!(code, StatusCode::AlreadyExists);
            assert_eq!(message, "dup");
        }
        other => panic!("expected immediate failure, got {:?}", kind_of(&other)),
    }
}

#[test]
fn exhausted_retryable_becomes_max_retries_exceeded() {
    let step = retry_step(ClientError::Timeout, 2, 3);
    assert!(matches!(step, RetryStep::Fail(ClientError::MaxRetriesExceeded)));
}

#[test]
fn zero_budget_fails_retryable_at_once() {
    let step = retry_step(ClientError::Timeout, 0, 0);
    assert!(matches!(step, RetryStep::Fail(ClientError::MaxRetriesExceeded)));
}

#[test]
fn backoff_grows_linearly() {
    for attempt in 0..10 {
        match retry_step(ClientError::Timeout, attempt, 100) {
            RetryStep::Retry { backoff_ms } => {
                assert_eq!(backoff_ms, 50 * (attempt as u64 + 1));
            }
            RetryStep::Fail(_) => panic!("attempt {} should retry", attempt),
        }
    }
}

fn kind_of(step: &RetryStep) -> &'static str {
    match step {
        RetryStep::Retry { .. } => "retry",
        RetryStep::Fail(_) => "fail",
    }
}
