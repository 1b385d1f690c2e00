//! Resilient client core for browsing and streaming files held by a remote
//! token-authenticated storage provider.
//!
//! The crate holds the protocol logic: the error taxonomy, the bounded
//! exponential-backoff retry policy, path normalization and joining, paginated
//! listing with deterministic ordering, credential state with a
//! single-refresh-on-unauthorized discipline, and byte-range stream handles.
//! The networking itself (HTTP requests, JSON wire decoding, async plumbing)
//! lives outside this crate and feeds plain values into these functions.

pub mod credentials;
pub mod errors;
pub mod listing;
pub mod openlist;
pub mod paths;
pub mod retry;
pub mod text;
pub mod transfer;
pub mod urls;
