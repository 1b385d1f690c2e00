//! Request addresses: the verified path arithmetic that joins the configured
//! base address with endpoint and download paths, and thin trusted wrappers
//! over the url crate, which owns the parsed address values.

use vstd::prelude::*;
use vstd::string::StrSliceExecFns;
use vstd::string::StringExecFns;
use crate::errors::StorageBackendError;
use crate::errors::StorageBackendResult;
use crate::paths::normalize_path;
use crate::paths::spec_normalize_path;
use crate::text::trim_end_slashes;
use crate::text::trim_end_slashes_str;
use crate::text::trim_start_slashes;
use crate::text::trim_start_slashes_str;

verus! {

#[verifier::external_type_specification]
#[verifier::external_body]
pub struct ExUrl(url::Url);

/// Whether `url::Url::parse` accepts `s`; acceptance depends on the input
/// characters alone.
pub uninterp spec fn url_parse_ok(s: Seq<char>) -> bool;

/// Relies on url::Url::parse: the parsed address on success, reported as
/// absence when the input is not a valid absolute address.
#[verifier::external_body]
fn url_parse(s: &str) -> (r: Option<url::Url>)
    ensures
        r is Some <==> url_parse_ok(s@),
{
    match url::Url::parse(s) {
        Ok(u) => Some(u),
        Err(_) => None,
    }
}

/// Relies on url::Url::path: the path portion of `u`, promised to be a
/// percent-encoded ASCII string.
#[verifier::external_body]
fn url_path(u: &url::Url) -> (r: String)
    ensures
        r.is_ascii(),
{
    u.path().to_owned()
}

/// Relies on url::Url::set_path: replaces the path portion of `u`.
#[verifier::external_body]
fn url_set_path(u: &mut url::Url, path: &str) {
    u.set_path(path);
}

/// Relies on url::Url::query_pairs_mut and form_urlencoded::Serializer::
/// append_pair: appends one percent-encoded query pair to `u`.
#[verifier::external_body]
fn url_append_query_pair(u: &mut url::Url, key: &str, value: &str) {
    u.query_pairs_mut().append_pair(key, value);
}

/// Relies on url::Url::join: resolves `rel` against `base`, reported as
/// absence when resolution fails.
#[verifier::external_body]
fn url_join(base: &url::Url, rel: &str) -> (r: Option<url::Url>) {
    match base.join(rel) {
        Ok(u) => Some(u),
        Err(_) => None,
    }
}

/// Relies on url::Url::scheme: the scheme portion of `u`.
#[verifier::external_body]
fn url_scheme(u: &url::Url) -> (r: String) {
    u.scheme().to_owned()
}

/// Relies on url::Url::host_str: the host portion of `u` as it was written
/// (a domain name or an IP address), absent when `u` has no host.
#[verifier::external_body]
fn url_host_str(u: &url::Url) -> (r: Option<String>) {
    u.host_str().map(|h| h.to_owned())
}

/// Relies on url::Url::port_or_known_default: the effective port of `u` —
/// the explicit one, or the scheme's well-known default — absent when
/// neither exists.
#[verifier::external_body]
fn url_port_or_default(u: &url::Url) -> (r: Option<u16>) {
    u.port_or_known_default()
}

/// The path an API endpoint request uses: the base address's path without
/// its trailing slashes, one slash, then the endpoint path without its
/// leading slashes.
pub open spec fn spec_api_url_path(base_path: Seq<char>, api_path: Seq<char>) -> Seq<char> {
    let b = trim_end_slashes(base_path);
    let a = trim_start_slashes(api_path);
    if b.len() == 0 {
        seq!['/'] + a
    } else {
        b + seq!['/'] + a
    }
}

/// Joins the base address's path with an endpoint path.
pub fn api_url_path(base_path: &str, api_path: &str) -> (r: String)
    ensures
        r@ == spec_api_url_path(base_path@, api_path@),
{
    proof {
        reveal_strlit("/");
    }
    let b = trim_end_slashes_str(base_path);
    let a = trim_start_slashes_str(api_path);
    if b.as_str().unicode_len() == 0 {
        let mut r = String::from_str("/");
        r.append(a.as_str());
        proof {
            assert(r@ =~= seq!['/'] + trim_start_slashes(api_path@));
        }
        r
    } else {
        let mut r = b;
        r.append("/");
        r.append(a.as_str());
        proof {
            assert(r@ =~= trim_end_slashes(base_path@) + seq!['/'] + trim_start_slashes(
                api_path@,
            ));
        }
        r
    }
}

/// The path a signed download uses: the base address's path without its
/// trailing slashes, then `/d/`, then the normalized file path without its
/// leading slashes.
pub open spec fn spec_download_url_path(base_path: Seq<char>, file_path: Seq<char>) -> Seq<char> {
    let b = trim_end_slashes(base_path);
    let p = trim_start_slashes(spec_normalize_path(file_path));
    if b.len() == 0 {
        seq!['/', 'd', '/'] + p
    } else {
        b + seq!['/', 'd', '/'] + p
    }
}

/// Joins the base address's path with the download path of `file_path`.
pub fn download_url_path(base_path: &str, file_path: &str) -> (r: String)
    ensures
        r@ == spec_download_url_path(base_path@, file_path@),
{
    proof {
        reveal_strlit("/d/");
        assert("/d/"@ =~= seq!['/', 'd', '/']);
    }
    let b = trim_end_slashes_str(base_path);
    let norm = normalize_path(file_path);
    let p = trim_start_slashes_str(norm.as_str());
    if b.as_str().unicode_len() == 0 {
        let mut r = String::from_str("/d/");
        r.append(p.as_str());
        proof {
            assert(r@ =~= seq!['/', 'd', '/'] + trim_start_slashes(
                spec_normalize_path(file_path@),
            ));
        }
        r
    } else {
        let mut r = b;
        r.append("/d/");
        r.append(p.as_str());
        proof {
            assert(r@ =~= trim_end_slashes(base_path@) + seq!['/', 'd', '/']
                + trim_start_slashes(spec_normalize_path(file_path@)));
        }
        r
    }
}

/// Builds the address of the API endpoint `api_path` under the configured
/// base address `addr`: the base address keeps its scheme, host and port,
/// and its path is joined with the endpoint path. A base address that does
/// not parse is exactly the `UrlFailure` error.
pub fn build_api_url(addr: &str, api_path: &str) -> (r: StorageBackendResult<url::Url>)
    ensures
        r is Err <==> !url_parse_ok(addr@),
        r matches Err(e) ==> e == StorageBackendError::UrlFailure,
{
    let mut u = match url_parse(addr) {
        Some(u) => u,
        None => {
            return Err(StorageBackendError::UrlFailure);
        },
    };
    let base = url_path(&u);
    let newp = api_url_path(base.as_str(), api_path);
    url_set_path(&mut u, newp.as_str());
    Ok(u)
}

/// Builds the signed download address of `path` under the configured base
/// address, appending the signature as a query parameter when one is
/// present and not empty. A base address that does not parse is exactly the
/// `UrlFailure` error.
pub fn build_download_url(addr: &str, path: &str, sign: Option<&str>) -> (r: StorageBackendResult<
    url::Url,
>)
    ensures
        r is Err <==> !url_parse_ok(addr@),
        r matches Err(e) ==> e == StorageBackendError::UrlFailure,
{
    let mut u = match url_parse(addr) {
        Some(u) => u,
        None => {
            return Err(StorageBackendError::UrlFailure);
        },
    };
    let base = url_path(&u);
    let newp = download_url_path(base.as_str(), path);
    url_set_path(&mut u, newp.as_str());
    match sign {
        Some(s) => {
            if s.unicode_len() > 0 {
                url_append_query_pair(&mut u, "sign", s);
            }
        },
        None => {},
    }
    Ok(u)
}

/// Resolves a provider-supplied direct download address: parsed on its own
/// when absolute, else joined onto the configured base address. An error is
/// always `UrlFailure`, and only when the address is not absolute; when the
/// base address does not parse either, the error is certain.
pub fn build_raw_url(addr: &str, raw: &str) -> (r: StorageBackendResult<url::Url>)
    ensures
        url_parse_ok(raw@) ==> r is Ok,
        r matches Err(e) ==> e == StorageBackendError::UrlFailure && !url_parse_ok(raw@),
        !url_parse_ok(raw@) && !url_parse_ok(addr@) ==> r is Err,
{
    if let Some(u) = url_parse(raw) {
        return Ok(u);
    }
    let base = match url_parse(addr) {
        Some(b) => b,
        None => {
            return Err(StorageBackendError::UrlFailure);
        },
    };
    match url_join(&base, raw) {
        Some(u) => Ok(u),
        None => Err(StorageBackendError::UrlFailure),
    }
}

/// The network origin of an address, as plain values: its scheme, its host
/// as written (a domain name or an IP address), and its effective port.
#[derive(Debug, Clone, PartialEq, Eq)]
pub struct NetOrigin {
    /// The scheme portion.
    pub scheme: String,
    /// The host portion, absent when the address has none.
    pub host: Option<String>,
    /// The explicit or scheme-default port, absent when neither exists.
    pub port: Option<u16>,
}

/// When two origins count as the same: equal schemes, both hosts present
/// and equal, and equal ports. An address without a host has no usable
/// origin and matches nothing.
pub open spec fn spec_origins_match(a: NetOrigin, b: NetOrigin) -> bool {
    &&& a.scheme@ == b.scheme@
    &&& match (a.host, b.host) {
        (Some(x), Some(y)) => x@ == y@,
        _ => false,
    }
    &&& a.port == b.port
}

/// Whether two origins are the same network origin.
pub fn origins_match(a: &NetOrigin, b: &NetOrigin) -> (r: bool)
    ensures
        r == spec_origins_match(*a, *b),
{
    let schemes_eq = a.scheme == b.scheme;
    let hosts_eq = match (&a.host, &b.host) {
        (Some(x), Some(y)) => *x == *y,
        _ => false,
    };
    let ports_eq = match (a.port, b.port) {
        (Some(x), Some(y)) => x == y,
        (None, None) => true,
        _ => false,
    };
    schemes_eq && hosts_eq && ports_eq
}

/// The origin of `u`, read out as plain values.
pub fn origin_of(u: &url::Url) -> (r: NetOrigin) {
    NetOrigin { scheme: url_scheme(u), host: url_host_str(u), port: url_port_or_default(u) }
}

/// Whether `target` has the same network origin — scheme, host and
/// effective port — as the configured base address. A base address that
/// does not parse matches nothing; the decision on the two origins is
/// `origins_match`. A credential is only ever attached when this holds.
pub fn same_origin(addr: &str, target: &url::Url) -> (r: bool)
    ensures
        !url_parse_ok(addr@) ==> !r,
{
    match url_parse(addr) {
        Some(base) => {
            let base_origin = origin_of(&base);
            let target_origin = origin_of(target);
            origins_match(&base_origin, &target_origin)
        },
        None => false,
    }
}

} // verus!
