use snapshot_downloader::source::{
    content_range_total, file_name_from_url, http_open, http_probe, is_s3_url,
    object_storage_probe, parse_s3_url, range_start, source_kind, OpenOutcome,
    RemoteObjectInfo, SourceKind, TransferError,
};
use snapshot_downloader::text::{contains, decimal_string, parse_u64};

#[test]
fn s3_urls_are_recognised() {
    assert!(is_s3_url("s3://bucket/key"));
    assert!(!is_s3_url("https://example.com/s3://x"));
    assert!(!is_s3_url("s3:/bucket"));
    assert_eq!(source_kind("s3://b/k"), SourceKind::ObjectStorage);
    assert_eq!(source_kind("http://h/f"), SourceKind::Http);
}

#[test]
fn s3_urls_are_split() {
    assert_eq!(
        parse_s3_url("s3://my-bucket/path/to/snap.tar.zst"),
        Ok(("my-bucket".to_string(), "path/to/snap.tar.zst".to_string()))
    );
    assert_eq!(parse_s3_url("s3://b/"), Ok(("b".to_string(), "".to_string())));
    assert_eq!(
        parse_s3_url("s3://bucket-only"),
        Err(TransferError::InvalidS3Url("s3://bucket-only".to_string()))
    );
    assert_eq!(
        parse_s3_url("https://x/y"),
        Err(TransferError::InvalidS3Url("https://x/y".to_string()))
    );
}

#[test]
fn file_names_come_from_the_last_segment() {
    assert_eq!(file_name_from_url("https://h/a/b/c.tar.gz"), "c.tar.gz");
    assert_eq!(file_name_from_url("noslash"), "noslash");
    assert_eq!(file_name_from_url("https://h/dir/"), "");
    assert_eq!(file_name_from_url("https://h/é/ü.bin"), "ü.bin");
}

#[test]
fn content_range_totals() {
    assert_eq!(content_range_total("bytes 0-0/12345"), 12345);
    assert_eq!(content_range_total("bytes 0-0/*"), 0);
    assert_eq!(content_range_total("garbage"), 0);
}

#[test]
fn decimal_numbers_are_read_like_std() {
    assert_eq!(parse_u64("0"), Some(0));
    assert_eq!(parse_u64("+42"), Some(42));
    assert_eq!(parse_u64("18446744073709551615"), Some(u64::MAX));
    assert_eq!(parse_u64("18446744073709551616"), None);
    assert_eq!(parse_u64(""), None);
    assert_eq!(parse_u64("+"), None);
    assert_eq!(parse_u64("-1"), None);
    assert_eq!(parse_u64(" 1"), None);
    assert_eq!(parse_u64("12a"), None);
    for s in ["7", "+9", "001", "99999999999999999999", "x"] {
        assert_eq!(parse_u64(s), s.parse::<u64>().ok());
    }
    assert_eq!(decimal_string(0), "0");
    assert_eq!(decimal_string(907), "907");
}

#[test]
fn http_probe_answers() {
    assert_eq!(
        http_probe(206, Some("bytes 0-0/500"), Some("1")),
        Ok(RemoteObjectInfo { total_size: 500, supports_range_resume: true })
    );
    assert_eq!(
        http_probe(206, None, Some("1")),
        Ok(RemoteObjectInfo { total_size: 0, supports_range_resume: true })
    );
    assert_eq!(
        http_probe(200, None, Some("777")),
        Ok(RemoteObjectInfo { total_size: 777, supports_range_resume: false })
    );
    assert_eq!(
        http_probe(200, None, None),
        Ok(RemoteObjectInfo { total_size: 0, supports_range_resume: false })
    );
    assert_eq!(
        http_probe(403, None, Some("abc")),
        Ok(RemoteObjectInfo { total_size: 0, supports_range_resume: false })
    );
    assert_eq!(http_probe(404, Some("bytes 0-0/5"), None), Err(TransferError::NotFound));
}

#[test]
fn http_open_answers() {
    assert_eq!(http_open(200), Ok(OpenOutcome::Streaming));
    assert_eq!(http_open(206), Ok(OpenOutcome::Streaming));
    assert_eq!(http_open(416), Ok(OpenOutcome::AlreadyComplete));
    assert_eq!(http_open(404), Err(TransferError::NotFound));
    assert_eq!(http_open(500), Err(TransferError::Status(500)));
    assert_eq!(http_open(302), Err(TransferError::Status(302)));
}

#[test]
fn object_storage_lengths() {
    assert_eq!(object_storage_probe(Some(42)).total_size, 42);
    assert_eq!(object_storage_probe(Some(-1)).total_size, 0);
    assert_eq!(object_storage_probe(None).total_size, 0);
    assert_eq!(range_start(0), None);
    assert_eq!(range_start(9), Some(9));
}

#[test]
fn error_classes() {
    assert!(TransferError::Status(503).is_retryable());
    assert!(TransferError::Io("timeout".to_string()).is_retryable());
    assert!(!TransferError::NotFound.is_retryable());
    assert!(!TransferError::InvalidS3Url("x".to_string()).is_retryable());
}

#[test]
fn substring_search() {
    assert!(contains("INF committed state height=5", "committed state"));
    assert!(!contains("committed stat", "committed state"));
    assert!(contains("abc", ""));
    assert!(!contains("", "a"));
}
