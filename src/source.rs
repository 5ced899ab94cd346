//! What a remote source reports, as the transfer engine reads it: URL
//! schemes, object-storage locations, probe answers and stream answers.

use vstd::prelude::*;
use crate::text::{
    after_last, chars_of, decimal_string, decimal_text, find_first_from, find_last, first_index_of, has_prefix,
    parse_u64, parse_u64_spec, slice_string, starts_with,
};

verus! {

/// Why a transfer attempt, or a whole transfer, did not succeed.
#[derive(Clone, Debug, PartialEq, Eq)]
pub enum TransferError {
    /// The remote object does not exist; retrying cannot help.
    NotFound,
    /// The remote side answered with a non-success status code.
    Status(u16),
    /// The connection, the stream or the local file failed; the text says how.
    Io(String),
    /// An object-storage URL that is not of the form `s3://bucket/key`.
    InvalidS3Url(String),
}

impl TransferError {
    /// Transient failures are retried; permanent and configuration ones are not.
    pub open spec fn retryable_spec(&self) -> bool {
        self is Status || self is Io
    }

    pub fn is_retryable(&self) -> (r: bool)
        ensures
            r == self.retryable_spec(),
    {
        match self {
            TransferError::Status(_) => true,
            TransferError::Io(_) => true,
            _ => false,
        }
    }
}

/// What a probe learns of a remote object.
#[derive(Clone, Copy, Debug, PartialEq, Eq)]
pub struct RemoteObjectInfo {
    /// Length of the object in bytes; 0 when the source does not say.
    pub total_size: u64,
    /// Whether the source answered a byte-range request with a range.
    pub supports_range_resume: bool,
}

/// How a request for a byte stream was answered.
#[derive(Clone, Copy, Debug, PartialEq, Eq)]
pub enum OpenOutcome {
    /// Bytes follow.
    Streaming,
    /// The requested range starts at or past the end: nothing is missing.
    AlreadyComplete,
}

/// The two kinds of remote source.
#[derive(Clone, Copy, Debug, PartialEq, Eq)]
pub enum SourceKind {
    Http,
    ObjectStorage,
}

pub open spec fn s3_prefix() -> Seq<char> {
    seq!['s', '3', ':', '/', '/']
}

pub open spec fn is_s3_url_spec(url: Seq<char>) -> bool {
    starts_with(url, s3_prefix())
}

/// The bucket and key of an object-storage URL: the text after `s3://` is
/// split at its first `/`, which must exist.
pub open spec fn s3_location_spec(url: Seq<char>) -> Option<(Seq<char>, Seq<char>)> {
    if !is_s3_url_spec(url) {
        None
    } else {
        let path = url.subrange(5, url.len() as int);
        let k = first_index_of(path, '/');
        if k < 0 {
            None
        } else {
            Some((path.subrange(0, k), path.subrange(k + 1, path.len() as int)))
        }
    }
}

/// The local file name for a URL: its final path segment.
pub open spec fn file_name_spec(url: Seq<char>) -> Seq<char> {
    after_last(url, '/')
}

/// The total length in a `Content-Range` value such as `bytes 0-0/12345`:
/// the number after the last `/`, or 0 when there is none.
pub open spec fn content_range_total_spec(value: Seq<char>) -> u64 {
    match parse_u64_spec(after_last(value, '/')) {
        Some(n) => n,
        None => 0,
    }
}

/// What an HTTP probe (a request for the first byte) means.
pub open spec fn http_probe_spec(
    status: u16,
    content_range: Option<Seq<char>>,
    content_length: Option<Seq<char>>,
) -> Result<RemoteObjectInfo, TransferError> {
    if status == 404 {
        Err(TransferError::NotFound)
    } else if status == 206 {
        Ok(RemoteObjectInfo {
            total_size: match content_range {
                Some(v) => content_range_total_spec(v),
                None => 0,
            },
            supports_range_resume: true,
        })
    } else {
        Ok(RemoteObjectInfo {
            total_size: match content_length {
                Some(v) => match parse_u64_spec(v) {
                    Some(n) => n,
                    None => 0,
                },
                None => 0,
            },
            supports_range_resume: false,
        })
    }
}

/// What the answer to a request for a byte stream means.
pub open spec fn http_open_spec(status: u16) -> Result<OpenOutcome, TransferError> {
    if status == 416 {
        Ok(OpenOutcome::AlreadyComplete)
    } else if 200 <= status <= 299 {
        Ok(OpenOutcome::Streaming)
    } else if status == 404 {
        Err(TransferError::NotFound)
    } else {
        Err(TransferError::Status(status))
    }
}

/// Whether `url` names an object in object storage (`s3://...`).
pub fn is_s3_url(url: &str) -> (r: bool)
    ensures
        r == is_s3_url_spec(url@),
{
    let cs = chars_of(url);
    let prefix: Vec<char> = vec!['s', '3', ':', '/', '/'];
    assert(prefix@ == s3_prefix());
    has_prefix(&cs, &prefix)
}

/// Which kind of source serves `url`.
pub fn source_kind(url: &str) -> (r: SourceKind)
    ensures
        r == (if is_s3_url_spec(url@) { SourceKind::ObjectStorage } else { SourceKind::Http }),
{
    if is_s3_url(url) {
        SourceKind::ObjectStorage
    } else {
        SourceKind::Http
    }
}

/// Splits `s3://bucket/key` into its bucket and key.
pub fn parse_s3_url(url: &str) -> (r: Result<(String, String), TransferError>)
    ensures
        match s3_location_spec(url@) {
            Some((bucket, key)) => r matches Ok((b, k)) && b@ == bucket && k@ == key,
            None => r matches Err(TransferError::InvalidS3Url(u)) && u@ == url@,
        },
{
    let cs = chars_of(url);
    if !is_s3_url(url) {
        return Err(TransferError::InvalidS3Url(url.to_owned()));
    }
    let ghost path = url@.subrange(5, url@.len() as int);
    assert(cs@.subrange(5, cs.len() as int) == path);
    match find_first_from(&cs, '/', 5) {
        None => Err(TransferError::InvalidS3Url(url.to_owned())),
        Some(k) => {
            let bucket = slice_string(url, 5, k);
            let key = slice_string(url, k + 1, cs.len());
            assert(bucket@ == path.subrange(0, k - 5));
            assert(key@ == path.subrange(k - 5 + 1, path.len() as int));
            Ok((bucket, key))
        },
    }
}

/// The final path segment of `url`, under which its content is stored locally.
pub fn file_name_from_url(url: &str) -> (r: String)
    ensures
        r@ == file_name_spec(url@),
{
    let cs = chars_of(url);
    match find_last(&cs, '/') {
        Some(k) => slice_string(url, k + 1, cs.len()),
        None => slice_string(url, 0, cs.len()),
    }
}

/// The total length that a `Content-Range` value declares (0 when unreadable).
pub fn content_range_total(value: &str) -> (r: u64)
    ensures
        r == content_range_total_spec(value@),
{
    let name = file_name_from_url(value);
    match parse_u64(name.as_str()) {
        Some(n) => n,
        None => 0,
    }
}

/// Reads the answer to an HTTP probe: its status and, where present, its
/// `Content-Range` and `Content-Length` values.
pub fn http_probe(status: u16, content_range: Option<&str>, content_length: Option<&str>) -> (r:
    Result<RemoteObjectInfo, TransferError>)
    ensures
        r == http_probe_spec(
            status,
            match content_range {
                Some(v) => Some(v@),
                None => None,
            },
            match content_length {
                Some(v) => Some(v@),
                None => None,
            },
        ),
{
    if status == 404 {
        Err(TransferError::NotFound)
    } else if status == 206 {
        let total = match content_range {
            Some(v) => content_range_total(v),
            None => 0,
        };
        Ok(RemoteObjectInfo { total_size: total, supports_range_resume: true })
    } else {
        let total = match content_length {
            Some(v) => match parse_u64(v) {
                Some(n) => n,
                None => 0,
            },
            None => 0,
        };
        Ok(RemoteObjectInfo { total_size: total, supports_range_resume: false })
    }
}

/// Reads an object-storage metadata answer: the declared length, when it
/// is present and not negative.
pub fn object_storage_probe(content_length: Option<i64>) -> (r: RemoteObjectInfo)
    ensures
        r.total_size == (match content_length {
            Some(n) => if n >= 0 { n as u64 } else { 0 },
            None => 0,
        }),
        r.supports_range_resume,
{
    let total: u64 = match content_length {
        Some(n) => if n >= 0 { n as u64 } else { 0 },
        None => 0,
    };
    RemoteObjectInfo { total_size: total, supports_range_resume: true }
}

/// Reads the status of the answer to a request for a byte stream.
pub fn http_open(status: u16) -> (r: Result<OpenOutcome, TransferError>)
    ensures
        r == http_open_spec(status),
{
    if status == 416 {
        Ok(OpenOutcome::AlreadyComplete)
    } else if 200 <= status && status <= 299 {
        Ok(OpenOutcome::Streaming)
    } else if status == 404 {
        Err(TransferError::NotFound)
    } else {
        Err(TransferError::Status(status))
    }
}

/// The `Range` value that asks for every byte from `start` on: `bytes=<start>-`.
pub open spec fn range_header_spec(start: u64) -> Seq<char> {
    seq!['b', 'y', 't', 'e', 's', '='] + decimal_text(start as nat) + seq!['-']
}

/// The `Range` value that asks for every byte from `start` on.
pub fn range_header(start: u64) -> (r: String)
    ensures
        r@ == range_header_spec(start),
{
    let mut r = "bytes=".to_owned();
    let n = decimal_string(start);
    r.append(n.as_str());
    r.append("-");
    proof {
        reveal_strlit("bytes=");
        reveal_strlit("-");
        assert(r@ =~= range_header_spec(start));
    }
    r
}

/// The start of the byte range to ask for: none when the whole object is wanted.
pub fn range_start(start: u64) -> (r: Option<u64>)
    ensures
        r == (if start > 0 { Some(start) } else { None::<u64> }),
{
    if start > 0 {
        Some(start)
    } else {
        None
    }
}

} // verus!
