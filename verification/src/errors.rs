//! Classified failures: every fallible storage operation returns exactly one
//! member of this taxonomy, so upstream logic can decide retry versus
//! fail-fast.

use vstd::prelude::*;

verus! {

/// One classified failure kind per fallible operation.
#[derive(Debug, Clone, PartialEq, Eq)]
pub enum StorageBackendError {
    /// Connect failure, timeout, or other transport-level request failure
    /// that produced no HTTP status.
    TransportFailure,
    /// A non-success HTTP status other than 401.
    HttpStatusFailure { status: u16 },
    /// An envelope-level failure: the provider answered, but with a non-200
    /// envelope code or without a payload.
    ApiError { code: i64, message: String },
    /// An explicit authorization failure (HTTP 401).
    Unauthorized,
    /// A malformed response payload.
    DecodeFailure,
    /// A malformed configured base address.
    UrlFailure,
}

pub type StorageBackendResult<T> = Result<T, StorageBackendError>;

/// An error counts as an authorization failure when it is the explicit
/// `Unauthorized` kind or an envelope error with code 401.
pub open spec fn spec_is_unauthorized(e: StorageBackendError) -> bool {
    match e {
        StorageBackendError::Unauthorized => true,
        StorageBackendError::ApiError { code, .. } => code == 401,
        _ => false,
    }
}

impl StorageBackendError {
    /// The predicate callers use to tell authorization failures apart from
    /// generically retryable ones.
    pub fn is_unauthorized(&self) -> (r: bool)
        ensures
            r == spec_is_unauthorized(*self),
    {
        match self {
            StorageBackendError::Unauthorized => true,
            StorageBackendError::ApiError { code, .. } => *code == 401,
            _ => false,
        }
    }
}

/// Whether a finished operation ended in an authorization failure.
pub open spec fn spec_is_auth_result<T>(r: StorageBackendResult<T>) -> bool {
    match r {
        Err(e) => spec_is_unauthorized(e),
        Ok(_) => false,
    }
}

/// Whether `r` holds an authorization failure.
pub fn is_auth_error<T>(r: &StorageBackendResult<T>) -> (b: bool)
    ensures
        b == spec_is_auth_result(*r),
{
    match r {
        Err(e) => e.is_unauthorized(),
        Ok(_) => false,
    }
}

/// What classification a bare HTTP status receives: success statuses yield no
/// error, 401 is `Unauthorized`, and every other status is an
/// `HttpStatusFailure` carrying the status.
pub open spec fn spec_classify_http_status(status: u16) -> Option<StorageBackendError> {
    if 200 <= status < 300 {
        None
    } else if status == 401 {
        Some(StorageBackendError::Unauthorized)
    } else {
        Some(StorageBackendError::HttpStatusFailure { status })
    }
}

/// Classifies a bare HTTP status code.
pub fn classify_http_status(status: u16) -> (r: Option<StorageBackendError>)
    ensures
        r == spec_classify_http_status(status),
{
    if 200 <= status && status < 300 {
        None
    } else if status == 401 {
        Some(StorageBackendError::Unauthorized)
    } else {
        Some(StorageBackendError::HttpStatusFailure { status })
    }
}

/// Resolves a decoded response envelope: a call succeeds exactly when the
/// envelope code is 200 and a payload is present; anything else is an
/// envelope-level error carrying the provider's code and message.
pub fn envelope_outcome<T>(code: i64, message: String, data: Option<T>) -> (r: StorageBackendResult<
    T,
>)
    ensures
        match r {
            Ok(v) => code == 200 && data == Some(v),
            Err(e) => {
                &&& (code != 200 || data is None)
                &&& e == (StorageBackendError::ApiError { code, message })
            },
        },
{
    if code == 200 {
        match data {
            Some(v) => Ok(v),
            None => Err(StorageBackendError::ApiError { code, message }),
        }
    } else {
        Err(StorageBackendError::ApiError { code, message })
    }
}

/// The outcome of one API attempt, decided from the HTTP status and the
/// decoded envelope (absent when the body did not decode): a non-success
/// status is classified first, an undecodable body is a `DecodeFailure`,
/// and otherwise the envelope decides.
pub fn api_attempt_outcome<T>(status: u16, envelope: Option<(i64, String, Option<T>)>) -> (r:
    StorageBackendResult<T>)
    ensures
        match (spec_classify_http_status(status), envelope) {
            (Some(e), _) => r == Result::<T, StorageBackendError>::Err(e),
            (None, None) => r == Result::<T, StorageBackendError>::Err(
                StorageBackendError::DecodeFailure,
            ),
            (None, Some((code, message, data))) => match r {
                Ok(v) => code == 200 && data == Some(v),
                Err(e) => {
                    &&& (code != 200 || data is None)
                    &&& e == (StorageBackendError::ApiError { code, message })
                },
            },
        },
{
    match classify_http_status(status) {
        Some(e) => Err(e),
        None => match envelope {
            None => Err(StorageBackendError::DecodeFailure),
            Some((code, message, data)) => envelope_outcome(code, message, data),
        },
    }
}

} // verus!
