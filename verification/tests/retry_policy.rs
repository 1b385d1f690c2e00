use ease_remote_storage::errors::StorageBackendError;
use ease_remote_storage::retry::retry_delay;
use ease_remote_storage::retry::should_retry_error;
use ease_remote_storage::retry::RetryDecision;
use ease_remote_storage::retry::RetryState;

#[test]
fn delays_double_then_hit_the_cap() {
    assert_eq!(retry_delay(0), 400);
    assert_eq!(retry_delay(1), 400);
    assert_eq!(retry_delay(2), 800);
    assert_eq!(retry_delay(3), 1600);
    assert_eq!(retry_delay(4), 2000);
    assert_eq!(retry_delay(5), 2000);
    assert_eq!(retry_delay(100), 2000);
}

#[test]
fn delays_strictly_increase_until_capped() {
    let mut prev = retry_delay(1);
    for attempt in 2..10usize {
        let next = retry_delay(attempt);
        assert!(next >= prev);
        assert!(next > prev || prev == 2000);
        prev = next;
    }
}

#[test]
fn transport_failures_always_retry() {
    assert!(should_retry_error(&StorageBackendError::TransportFailure));
}

#[test]
fn server_errors_and_throttling_retry() {
    for status in [500u16, 502, 503, 599, 408, 429] {
        assert!(should_retry_error(&StorageBackendError::HttpStatusFailure { status }));
    }
    for code in [500i64, 502, 503, 599, 408, 429] {
        assert!(should_retry_error(&StorageBackendError::ApiError {
            code,
            message: String::new(),
        }));
    }
}

#[test]
fn client_errors_never_retry() {
    for status in [400u16, 403, 404, 410] {
        assert!(!should_retry_error(&StorageBackendError::HttpStatusFailure { status }));
    }
    assert!(!should_retry_error(&StorageBackendError::Unauthorized));
    assert!(!should_retry_error(&StorageBackendError::ApiError {
        code: 401,
        message: String::new(),
    }));
    assert!(!should_retry_error(&StorageBackendError::ApiError {
        code: 404,
        message: String::new(),
    }));
    assert!(!should_retry_error(&StorageBackendError::DecodeFailure));
    assert!(!should_retry_error(&StorageBackendError::UrlFailure));
}

#[test]
fn budget_allows_two_retries_then_surfaces() {
    let mut state = RetryState::new();
    let err = StorageBackendError::HttpStatusFailure { status: 503 };
    assert_eq!(state.on_error(&err), RetryDecision::RetryAfterMs(400));
    assert_eq!(state.on_error(&err), RetryDecision::RetryAfterMs(800));
    assert_eq!(state.on_error(&err), RetryDecision::Terminal);
    assert_eq!(state.attempt, 2);
}

#[test]
fn non_retryable_error_is_terminal_at_once() {
    let mut state = RetryState::new();
    let err = StorageBackendError::DecodeFailure;
    assert_eq!(state.on_error(&err), RetryDecision::Terminal);
    assert_eq!(state.attempt, 0);
}

#[test]
fn one_induced_failure_then_success_takes_two_attempts() {
    // One 503 answer followed by a healthy server: the operation makes
    // exactly two attempts and ends successfully.
    let mut state = RetryState::new();
    let mut attempts = 0usize;
    let mut outcome: Result<&str, StorageBackendError> = Err(StorageBackendError::TransportFailure);
    loop {
        attempts += 1;
        let served: Result<&str, StorageBackendError> = if attempts < 2 {
            Err(StorageBackendError::HttpStatusFailure { status: 503 })
        } else {
            Ok("listing")
        };
        match served {
            Ok(v) => {
                outcome = Ok(v);
                break;
            }
            Err(e) => match state.on_error(&e) {
                RetryDecision::RetryAfterMs(_) => continue,
                RetryDecision::Terminal => {
                    outcome = Err(e);
                    break;
                }
            },
        }
    }
    assert_eq!(attempts, 2);
    assert_eq!(outcome, Ok("listing"));
}
