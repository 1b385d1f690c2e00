//! The credential manager's state: an anonymous backend never authenticates;
//! otherwise a bearer token is acquired once, cached, and replaced exactly
//! once per operation after an observed authorization failure.

use vstd::prelude::*;
use crate::errors::{spec_is_auth_result, StorageBackendResult};

verus! {

/// The cached credential state of one backend instance.
#[derive(Debug, Clone, PartialEq, Eq)]
pub struct Credentials {
    /// Whether the backend runs without authentication; this is terminal and
    /// never changes.
    pub anonymous: bool,
    /// The cached bearer token, once one was acquired.
    pub token: Option<String>,
}

impl Credentials {
    /// The credential invariant: an anonymous backend never holds a token.
    pub open spec fn wf(self) -> bool {
        self.anonymous ==> self.token is None
    }

    /// A fresh credential state with no cached token.
    pub fn new(anonymous: bool) -> (c: Self)
        ensures
            c.anonymous == anonymous,
            c.token is None,
            c.wf(),
    {
        Credentials { anonymous, token: None }
    }

    /// Whether `ensure()` must perform a login before the next authenticated
    /// request: only when the backend is not anonymous and no token is
    /// cached.
    pub fn needs_login(&self) -> (r: bool)
        ensures
            r == (!self.anonymous && self.token is None),
    {
        !self.anonymous && self.token.is_none()
    }

    /// Whether a forced refresh must perform a login: always, except for an
    /// anonymous backend, which never authenticates.
    pub fn refresh_needs_login(&self) -> (r: bool)
        ensures
            r == !self.anonymous,
    {
        !self.anonymous
    }

    /// Caches a freshly acquired token, replacing any previous one.
    pub fn store_token(&mut self, token: String)
        requires
            !old(self).anonymous,
        ensures
            final(self).anonymous == old(self).anonymous,
            final(self).token == Some(token),
            final(self).wf(),
    {
        self.token = Some(token);
    }

    /// A copy of the cached token, for attaching to an outbound request.
    pub fn current_token(&self) -> (r: Option<String>)
        ensures
            r == self.token,
    {
        match &self.token {
            Some(t) => Some(t.clone()),
            None => None,
        }
    }
}

/// What the auth-aware wrapper does with the outcome of one full attempt.
pub enum AuthStep<T> {
    /// The outcome stands; hand it to the caller.
    Done(StorageBackendResult<T>),
    /// Refresh the token and run the whole operation exactly once more.
    RefreshAndRetry,
}

/// The auth-aware retry wrapper around a whole listing or fetch: it refreshes
/// the token at most once, and only after an observed authorization failure.
#[derive(Debug, Clone, PartialEq, Eq)]
pub struct AuthFlow {
    /// Whether this operation has already spent its single refresh.
    pub refreshed: bool,
}

/// How the flow treats one outcome: a first authorization failure costs the
/// single refresh; everything else, including a second authorization
/// failure, is surfaced unchanged.
pub open spec fn spec_auth_step<T>(f: AuthFlow, r: StorageBackendResult<T>) -> (
    AuthFlow,
    AuthStep<T>,
) {
    if spec_is_auth_result(r) && !f.refreshed {
        (AuthFlow { refreshed: true }, AuthStep::RefreshAndRetry)
    } else {
        (f, AuthStep::Done(r))
    }
}

impl AuthFlow {
    /// A fresh flow for one logical operation, with its refresh unspent.
    pub fn new() -> (f: Self)
        ensures
            !f.refreshed,
    {
        AuthFlow { refreshed: false }
    }

    /// Decides what to do with the outcome of one full attempt.
    pub fn on_result<T>(&mut self, r: StorageBackendResult<T>) -> (s: AuthStep<T>)
        ensures
            (*final(self), s) == spec_auth_step(*old(self), r),
    {
        let unauth = crate::errors::is_auth_error(&r);
        if unauth && !self.refreshed {
            self.refreshed = true;
            AuthStep::RefreshAndRetry
        } else {
            AuthStep::Done(r)
        }
    }
}

/// Law: an operation that observes an authorization failure exactly once
/// triggers exactly one refresh-and-retry; when the retried attempt fails
/// with an authorization failure again, that failure is surfaced unchanged,
/// with no further retry.
pub proof fn lemma_single_refresh<T>(r1: StorageBackendResult<T>, r2: StorageBackendResult<T>)
    requires
        spec_is_auth_result(r1),
        spec_is_auth_result(r2),
    ensures
        ({
            let (f1, s1) = spec_auth_step(AuthFlow { refreshed: false }, r1);
            let (f2, s2) = spec_auth_step(f1, r2);
            &&& s1 is RefreshAndRetry
            &&& f1.refreshed
            &&& s2 == AuthStep::Done(r2)
            &&& f2.refreshed
        }),
{
}

/// Law: an outcome that is not an authorization failure is surfaced as it
/// stands and never spends the refresh.
pub proof fn lemma_no_refresh_without_unauthorized<T>(f: AuthFlow, r: StorageBackendResult<T>)
    requires
        !spec_is_auth_result(r),
    ensures
        spec_auth_step(f, r) == (f, AuthStep::Done(r)),
{
}

} // verus!
