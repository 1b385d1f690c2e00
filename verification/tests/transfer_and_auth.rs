use ease_remote_storage::credentials::AuthFlow;
use ease_remote_storage::credentials::AuthStep;
use ease_remote_storage::credentials::Credentials;
use ease_remote_storage::errors::api_attempt_outcome;
use ease_remote_storage::errors::classify_http_status;
use ease_remote_storage::errors::envelope_outcome;
use ease_remote_storage::errors::is_auth_error;
use ease_remote_storage::errors::StorageBackendError;
use ease_remote_storage::transfer::choose_fetch_source;
use ease_remote_storage::transfer::make_stream_file;
use ease_remote_storage::transfer::wants_range;
use ease_remote_storage::transfer::FetchSource;

#[test]
fn honored_range_reports_requested_offset_and_remaining_size() {
    // Fetching a 5-byte file from offset 2 over a range-honoring server: the
    // response body holds the remaining 3 bytes and a content-range header.
    let full = b"12345";
    let offset = 2usize;
    let body: Vec<u8> = full[offset..].to_vec();
    let handle = make_stream_file(offset as u64, true, Some(body.len() as u64));
    assert_eq!(handle.size(), Some(3));
    assert_eq!(handle.offset(), 2);
    assert_eq!(body.as_slice(), b"345");
    assert_eq!(body[0], full[offset]);
}

#[test]
fn ignored_range_reports_offset_zero() {
    let full = b"12345";
    let handle = make_stream_file(2, false, Some(full.len() as u64));
    assert_eq!(handle.offset(), 0);
    assert_eq!(handle.size(), Some(5));
}

#[test]
fn range_header_only_for_nonzero_offsets() {
    assert!(!wants_range(0));
    assert!(wants_range(1));
    assert!(wants_range(345));
}

#[test]
fn direct_url_takes_precedence_over_signature() {
    let s = choose_fetch_source(
        "/a.bin",
        Some("http://cdn.example.com/a.bin".to_string()),
        "sig".to_string(),
    );
    assert_eq!(s, FetchSource::Direct("http://cdn.example.com/a.bin".to_string()));
    let s = choose_fetch_source("/a.bin", None, "sig".to_string());
    assert_eq!(
        s,
        FetchSource::Signed { path: "/a.bin".to_string(), sign: "sig".to_string() }
    );
}

#[test]
fn envelope_requires_code_200_and_payload() {
    assert_eq!(envelope_outcome(200, "success".to_string(), Some(5)), Ok(5));
    assert_eq!(
        envelope_outcome::<u8>(200, "empty".to_string(), None),
        Err(StorageBackendError::ApiError { code: 200, message: "empty".to_string() })
    );
    assert_eq!(
        envelope_outcome(403, "denied".to_string(), Some(5)),
        Err(StorageBackendError::ApiError { code: 403, message: "denied".to_string() })
    );
}

#[test]
fn api_attempt_classifies_status_then_body_then_envelope() {
    assert_eq!(
        api_attempt_outcome::<u8>(503, Some((200, "ok".to_string(), Some(1)))),
        Err(StorageBackendError::HttpStatusFailure { status: 503 })
    );
    assert_eq!(
        api_attempt_outcome::<u8>(401, None),
        Err(StorageBackendError::Unauthorized)
    );
    assert_eq!(
        api_attempt_outcome::<u8>(200, None),
        Err(StorageBackendError::DecodeFailure)
    );
    assert_eq!(api_attempt_outcome(200, Some((200, "ok".to_string(), Some(7)))), Ok(7));
    assert_eq!(
        api_attempt_outcome(200, Some((500, "down".to_string(), Some(7)))),
        Err(StorageBackendError::ApiError { code: 500, message: "down".to_string() })
    );
}

#[test]
fn http_statuses_classify_by_range() {
    assert_eq!(classify_http_status(200), None);
    assert_eq!(classify_http_status(206), None);
    assert_eq!(classify_http_status(401), Some(StorageBackendError::Unauthorized));
    assert_eq!(
        classify_http_status(503),
        Some(StorageBackendError::HttpStatusFailure { status: 503 })
    );
}

#[test]
fn unauthorized_detection_covers_envelope_code_401() {
    assert!(StorageBackendError::Unauthorized.is_unauthorized());
    assert!(StorageBackendError::ApiError { code: 401, message: String::new() }
        .is_unauthorized());
    assert!(!StorageBackendError::TransportFailure.is_unauthorized());
    let r: Result<(), StorageBackendError> = Err(StorageBackendError::Unauthorized);
    assert!(is_auth_error(&r));
    let r: Result<(), StorageBackendError> = Ok(());
    assert!(!is_auth_error(&r));
}

#[test]
fn one_unauthorized_triggers_exactly_one_refresh() {
    // First unauthorized answer: refresh and retry once. A second
    // unauthorized answer is surfaced as the terminal outcome.
    let mut flow = AuthFlow::new();
    let first: Result<u8, StorageBackendError> = Err(StorageBackendError::Unauthorized);
    let mut refreshes = 0usize;
    match flow.on_result(first) {
        AuthStep::RefreshAndRetry => refreshes += 1,
        AuthStep::Done(_) => panic!("the first unauthorized outcome must be retried"),
    }
    let second: Result<u8, StorageBackendError> = Err(StorageBackendError::Unauthorized);
    match flow.on_result(second) {
        AuthStep::Done(r) => assert_eq!(r, Err(StorageBackendError::Unauthorized)),
        AuthStep::RefreshAndRetry => panic!("a second unauthorized outcome must be terminal"),
    }
    assert_eq!(refreshes, 1);
}

#[test]
fn successful_outcome_never_spends_the_refresh() {
    let mut flow = AuthFlow::new();
    match flow.on_result::<u8>(Ok(7)) {
        AuthStep::Done(r) => assert_eq!(r, Ok(7)),
        AuthStep::RefreshAndRetry => panic!("a success must stand"),
    }
    assert!(!flow.refreshed);
}

#[test]
fn anonymous_credentials_never_log_in() {
    let creds = Credentials::new(true);
    assert!(!creds.needs_login());
    assert!(!creds.refresh_needs_login());
    assert_eq!(creds.current_token(), None);
}

#[test]
fn token_is_cached_after_login() {
    let mut creds = Credentials::new(false);
    assert!(creds.needs_login());
    assert!(creds.refresh_needs_login());
    creds.store_token("token-123".to_string());
    assert!(!creds.needs_login());
    assert!(creds.refresh_needs_login());
    assert_eq!(creds.current_token(), Some("token-123".to_string()));
}
