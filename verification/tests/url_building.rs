use std::time::Duration;

use ease_remote_storage::errors::StorageBackendError;
use ease_remote_storage::openlist::BuildOpenListArg;
use ease_remote_storage::openlist::OpenList;
use ease_remote_storage::urls::build_api_url;
use ease_remote_storage::urls::build_download_url;
use ease_remote_storage::urls::build_raw_url;

fn backend(addr: &str, anonymous: bool) -> OpenList {
    OpenList::new(BuildOpenListArg {
        addr: addr.to_string(),
        username: "user".to_string(),
        password: "pass".to_string(),
        is_anonymous: anonymous,
        connect_timeout: Duration::from_secs(10),
    })
}

fn backend_at(addr: &str) -> OpenList {
    backend(addr, false)
}

#[test]
fn api_url_joins_base_and_endpoint() {
    let u = build_api_url("http://127.0.0.1:5244", "/api/fs/list").unwrap();
    assert_eq!(u.as_str(), "http://127.0.0.1:5244/api/fs/list");
    let u = build_api_url("http://host/base/", "/api/auth/login").unwrap();
    assert_eq!(u.as_str(), "http://host/base/api/auth/login");
}

#[test]
fn malformed_base_address_is_a_url_failure() {
    assert_eq!(
        build_api_url("not a url", "/api/fs/list"),
        Err(StorageBackendError::UrlFailure)
    );
    assert_eq!(
        build_download_url("not a url", "/a.bin", None),
        Err(StorageBackendError::UrlFailure)
    );
}

#[test]
fn download_url_uses_the_d_prefix_and_signature() {
    let u = build_download_url("http://host", "a.bin", Some("abc")).unwrap();
    assert_eq!(u.as_str(), "http://host/d/a.bin?sign=abc");
    let u = build_download_url("http://host/base", "/x/y.mp3", Some("")).unwrap();
    assert_eq!(u.as_str(), "http://host/base/d/x/y.mp3");
    let u = build_download_url("http://host", "/a.bin", None).unwrap();
    assert_eq!(u.as_str(), "http://host/d/a.bin");
}

#[test]
fn raw_url_prefers_absolute_and_joins_relative() {
    let u = build_raw_url("http://host", "http://cdn.example.com/a.bin").unwrap();
    assert_eq!(u.as_str(), "http://cdn.example.com/a.bin");
    let u = build_raw_url("http://host/base/", "d/a.bin").unwrap();
    assert_eq!(u.as_str(), "http://host/base/d/a.bin");
    assert_eq!(
        build_raw_url("not a url", "d/a.bin"),
        Err(StorageBackendError::UrlFailure)
    );
}

#[test]
fn token_only_attaches_to_the_configured_origin() {
    let mut backend = backend("http://files.example.com", false);
    backend.credentials.store_token("token-123".to_string());
    let same = url::Url::parse("http://files.example.com/d/a.bin").unwrap();
    assert!(backend.same_origin_as_base(&same));
    assert_eq!(
        backend.token_for_target(backend.same_origin_as_base(&same)),
        Some("token-123".to_string())
    );
    let other = url::Url::parse("http://cdn.example.net/d/a.bin").unwrap();
    assert!(!backend.same_origin_as_base(&other));
    assert_eq!(backend.token_for_target(backend.same_origin_as_base(&other)), None);
}

#[test]
fn origin_comparison_covers_scheme_host_and_port() {
    let backend = backend("http://files.example.com", false);
    for (target, same) in [
        // The scheme's known default port equals the explicit one.
        ("http://files.example.com:80/d/a.bin", true),
        // A different scheme is a different origin.
        ("https://files.example.com/d/a.bin", false),
        // A different explicit port is a different origin.
        ("http://files.example.com:8080/d/a.bin", false),
    ] {
        let target = url::Url::parse(target).unwrap();
        assert_eq!(backend.same_origin_as_base(&target), same);
    }
    // Hosts given by IP address compare by the address itself.
    let ip_backend = backend_at("http://127.0.0.1:5244");
    let same_ip = url::Url::parse("http://127.0.0.1:5244/d/a.bin").unwrap();
    assert!(ip_backend.same_origin_as_base(&same_ip));
    let other_ip = url::Url::parse("http://10.0.0.7:5244/d/a.bin").unwrap();
    assert!(!ip_backend.same_origin_as_base(&other_ip));
}

#[test]
fn token_never_attaches_without_a_cached_token() {
    let backend = backend("http://files.example.com", true);
    let same = url::Url::parse("http://files.example.com/d/a.bin").unwrap();
    assert_eq!(backend.token_for_target(backend.same_origin_as_base(&same)), None);
    assert_eq!(backend.token_for_target(true), None);
}

#[test]
fn backend_construction_keeps_the_configuration() {
    let b = backend("http://host", false);
    assert_eq!(b.addr, "http://host");
    assert_eq!(b.username, "user");
    assert_eq!(b.password, "pass");
    assert_eq!(b.connect_timeout, Duration::from_secs(10));
    assert!(!b.credentials.anonymous);
    assert_eq!(b.credentials.token, None);
}
