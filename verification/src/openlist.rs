//! The token-authenticated REST backend: its configuration, credential
//! state, and the per-request decisions the networking layer consults.

use vstd::prelude::*;
use crate::credentials::Credentials;
use crate::errors::StorageBackendResult;
use crate::urls::build_api_url;
use crate::urls::build_download_url;
use crate::urls::build_raw_url;
use crate::urls::same_origin;
use crate::urls::url_parse_ok;
use crate::errors::StorageBackendError;

verus! {

/// Everything a backend instance is configured with; supplied once at
/// construction.
pub struct BuildOpenListArg {
    /// The base address of the provider.
    pub addr: String,
    /// Login name, unused when anonymous.
    pub username: String,
    /// Login password, unused when anonymous.
    pub password: String,
    /// Whether the backend runs without authentication.
    pub is_anonymous: bool,
    /// Connect timeout for outbound requests.
    pub connect_timeout: core::time::Duration,
}

/// One configured backend instance: the immutable configuration and the
/// credential state.
pub struct OpenList {
    /// The configured base address.
    pub addr: String,
    /// Login name.
    pub username: String,
    /// Login password.
    pub password: String,
    /// Connect timeout for outbound requests.
    pub connect_timeout: core::time::Duration,
    /// The cached credential state.
    pub credentials: Credentials,
}

impl OpenList {
    /// Builds a backend instance from its configuration, with no token
    /// cached yet.
    pub fn new(arg: BuildOpenListArg) -> (s: Self)
        ensures
            s.addr == arg.addr,
            s.username == arg.username,
            s.password == arg.password,
            s.connect_timeout == arg.connect_timeout,
            s.credentials.anonymous == arg.is_anonymous,
            s.credentials.token is None,
            s.credentials.wf(),
    {
        OpenList {
            addr: arg.addr,
            username: arg.username,
            password: arg.password,
            connect_timeout: arg.connect_timeout,
            credentials: Credentials::new(arg.is_anonymous),
        }
    }

    /// The address of the API endpoint `api_path` under the configured base
    /// address.
    pub fn api_url(&self, api_path: &str) -> (r: StorageBackendResult<url::Url>)
        ensures
            r is Err <==> !url_parse_ok(self.addr@),
            r matches Err(e) ==> e == StorageBackendError::UrlFailure,
    {
        build_api_url(self.addr.as_str(), api_path)
    }

    /// The signed download address for `path`.
    pub fn download_url(&self, path: &str, sign: Option<&str>) -> (r: StorageBackendResult<
        url::Url,
    >)
        ensures
            r is Err <==> !url_parse_ok(self.addr@),
            r matches Err(e) ==> e == StorageBackendError::UrlFailure,
    {
        build_download_url(self.addr.as_str(), path, sign)
    }

    /// A provider-supplied direct download address, resolved against the
    /// configured base address when it is not absolute.
    pub fn raw_url(&self, raw: &str) -> (r: StorageBackendResult<url::Url>)
        ensures
            url_parse_ok(raw@) ==> r is Ok,
            r matches Err(e) ==> e == StorageBackendError::UrlFailure && !url_parse_ok(raw@),
            !url_parse_ok(raw@) && !url_parse_ok(self.addr@) ==> r is Err,
    {
        build_raw_url(self.addr.as_str(), raw)
    }

    /// Whether `target` shares the configured base address's network origin
    /// (scheme, host and effective port); an unparsable base address
    /// matches nothing.
    pub fn same_origin_as_base(&self, target: &url::Url) -> (r: bool)
        ensures
            !url_parse_ok(self.addr@) ==> !r,
    {
        same_origin(self.addr.as_str(), target)
    }

    /// The bearer token to attach to a download whose target's origin
    /// comparison came out as `same_origin`: exactly the cached token when
    /// the origins matched, and nothing otherwise, so the credential never
    /// leaks to a third-party address.
    pub fn token_for_target(&self, same_origin: bool) -> (r: Option<String>)
        ensures
            r == (if same_origin {
                self.credentials.token
            } else {
                None
            }),
    {
        if same_origin {
            self.credentials.current_token()
        } else {
            None
        }
    }
}

} // verus!
