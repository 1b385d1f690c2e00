//! The streaming transfer engine's decisions: which address a download
//! fetches from, whether a range request is issued, and what offset and size
//! the returned handle reports.

use vstd::prelude::*;
use vstd::string::StringExecFns;

verus! {

/// The caller-visible handle of one streamed file: the declared size and the
/// offset the body starts at. The body itself arrives lazily over the
/// network, driven by the consumer.
#[derive(Debug, Clone, PartialEq, Eq)]
pub struct StreamFile {
    /// Declared byte count of the body: the full file size when unranged,
    /// the remaining bytes when a range was honored.
    pub size: Option<u64>,
    /// The offset within the file at which the body starts.
    pub offset: u64,
}

impl StreamFile {
    /// The declared size of the body.
    pub fn size(&self) -> (r: Option<u64>)
        ensures
            r == self.size,
    {
        self.size
    }

    /// The offset within the file at which the body starts.
    pub fn offset(&self) -> (r: u64)
        ensures
            r == self.offset,
    {
        self.offset
    }
}

/// Whether a fetch from `byte_offset` must carry a range request: only when
/// the offset is not zero.
pub open spec fn spec_wants_range(byte_offset: u64) -> bool {
    byte_offset > 0
}

/// Whether a fetch from `byte_offset` issues a byte-range request.
pub fn wants_range(byte_offset: u64) -> (r: bool)
    ensures
        r == spec_wants_range(byte_offset),
{
    byte_offset > 0
}

/// The handle a finished fetch returns: the declared size is the response's
/// content length, and the reported offset is the requested one when the
/// server honored the range (it answered with a content-range header) and 0
/// when it did not — the consumer must not assume partial content that was
/// never negotiated.
pub open spec fn spec_make_stream_file(
    requested_offset: u64,
    range_honored: bool,
    content_length: Option<u64>,
) -> StreamFile {
    StreamFile {
        size: content_length,
        offset: if range_honored {
            requested_offset
        } else {
            0
        },
    }
}

/// Builds the handle of a finished fetch from the requested offset, whether
/// the response carried a content-range header, and its content length.
pub fn make_stream_file(
    requested_offset: u64,
    range_honored: bool,
    content_length: Option<u64>,
) -> (f: StreamFile)
    ensures
        f == spec_make_stream_file(requested_offset, range_honored, content_length),
{
    StreamFile {
        size: content_length,
        offset: if range_honored {
            requested_offset
        } else {
            0
        },
    }
}

/// The body a range-honoring server returns for a file of bytes `file` when
/// asked to start at `offset`: exactly the remaining bytes.
pub open spec fn spec_remaining_bytes(file: Seq<u8>, offset: int) -> Seq<u8> {
    file.skip(offset)
}

/// Law: fetching a file of bytes `file` from offset `k` over a server that
/// honors the range yields a body of exactly the remaining bytes — its first
/// byte is the file's byte at offset `k` — and a handle that reports size
/// `file.len() - k` and offset `k`.
pub proof fn lemma_ranged_fetch(file: Seq<u8>, k: u64)
    requires
        k < file.len() <= u64::MAX,
    ensures
        ({
            let body = spec_remaining_bytes(file, k as int);
            let handle = spec_make_stream_file(k, true, Some((file.len() - k) as u64));
            &&& handle.size == Some((file.len() - k) as u64)
            &&& handle.offset == k
            &&& body.len() == file.len() - k
            &&& body[0] == file[k as int]
        }),
{
}

/// Law: when the server ignores the range and returns the full body, the
/// handle reports offset 0, whatever offset was requested.
pub proof fn lemma_range_ignored_offset(k: u64, content_length: Option<u64>)
    ensures
        spec_make_stream_file(k, false, content_length).offset == 0,
{
}

/// Where a download fetches from: the provider's direct address, or the
/// signed download path built from the file path and the signature.
#[derive(Debug, Clone, PartialEq, Eq)]
pub enum FetchSource {
    /// The provider supplied a direct download address.
    Direct(String),
    /// No direct address: build a signed download address.
    Signed { path: String, sign: String },
}

/// Picks where a fetch downloads from: a provider-supplied direct address
/// always takes precedence over the signed download path, so the
/// authentication parameters the provider put there are never dropped.
pub fn choose_fetch_source(path: &str, raw_url: Option<String>, sign: String) -> (s: FetchSource)
    ensures
        match raw_url {
            Some(u) => s == FetchSource::Direct(u),
            None => s matches FetchSource::Signed { path: p, sign: g } && p@ == path@ && g
                == sign,
        },
{
    match raw_url {
        Some(u) => FetchSource::Direct(u),
        None => FetchSource::Signed { path: String::from_str(path), sign },
    }
}

} // verus!
