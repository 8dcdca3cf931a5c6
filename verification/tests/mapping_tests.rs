use musync::endpoint::{classify, parse_endpoint, Direction, Endpoint, SyncError};
use musync::pathmap::{download_local_path, upload_remote_key};
use musync::strutil::{concat_str, ends_with_char, join_path, last_segment_str, starts_with_str,
    str_eq, strip_prefix_str, trim_leading_char, trim_trailing_char};

#[test]
fn str_eq_basic() {
    assert!(str_eq("abc", "abc"));
    assert!(!str_eq("abc", "abd"));
    assert!(!str_eq("abc", "abcd"));
    assert!(str_eq("", ""));
}

#[test]
fn starts_with_basic() {
    assert!(starts_with_str("s3://bucket/key", "s3://"));
    assert!(!starts_with_str("/tmp/out", "s3://"));
    assert!(starts_with_str("data", ""));
    assert!(!starts_with_str("s3", "s3://"));
}

#[test]
fn ends_with_basic() {
    assert!(ends_with_char("data/", '/'));
    assert!(!ends_with_char("data", '/'));
    assert!(!ends_with_char("", '/'));
}

#[test]
fn strip_prefix_basic() {
    assert_eq!(strip_prefix_str("data/a.txt", "data/"), "a.txt");
    assert_eq!(strip_prefix_str("data/a.txt", "data"), "/a.txt");
    assert_eq!(strip_prefix_str("data/a.txt", "other"), "data/a.txt");
    assert_eq!(strip_prefix_str("abc", ""), "abc");
}

#[test]
fn trim_chars_basic() {
    assert_eq!(trim_leading_char("///a/b", '/'), "a/b");
    assert_eq!(trim_leading_char("a/b", '/'), "a/b");
    assert_eq!(trim_leading_char("///", '/'), "");
    assert_eq!(trim_trailing_char("a/b///", '/'), "a/b");
    assert_eq!(trim_trailing_char("a/b", '/'), "a/b");
    assert_eq!(trim_trailing_char("\"abc\"", '"'), "\"abc");
}

#[test]
fn last_segment_basic() {
    assert_eq!(last_segment_str("data/sub/f.txt"), "f.txt");
    assert_eq!(last_segment_str("data"), "data");
    assert_eq!(last_segment_str("data/"), "");
    assert_eq!(last_segment_str(""), "");
}

#[test]
fn join_path_basic() {
    assert_eq!(join_path("/tmp/out", "a.txt"), "/tmp/out/a.txt");
    assert_eq!(join_path("/tmp/out/", "a.txt"), "/tmp/out/a.txt");
    assert_eq!(join_path("", "a.txt"), "a.txt");
}

#[test]
fn concat_basic() {
    assert_eq!(concat_str("data", "/a.txt"), "data/a.txt");
    assert_eq!(concat_str("", ""), "");
}

// Remote objects data/a.txt and data/b/c.txt, synced from s3://bucket/data/
// (trailing slash) into /tmp/out: the relative paths land directly under the
// local root, with no data/ nesting.
#[test]
fn download_mapping_trailing_slash_tree() {
    let p1 = download_local_path("data/", true, "/tmp/out", "data/a.txt");
    assert_eq!(p1, "/tmp/out/a.txt");
    let p2 = download_local_path("data/", true, "/tmp/out", "data/b/c.txt");
    assert_eq!(p2, "/tmp/out/b/c.txt");
}

// The same objects synced from s3://bucket/data (no trailing slash): the
// prefix's final segment becomes a nested directory locally.
#[test]
fn download_mapping_no_trailing_slash_tree() {
    let p1 = download_local_path("data", false, "/tmp/out", "data/a.txt");
    assert_eq!(p1, "/tmp/out/data/a.txt");
    let p2 = download_local_path("data", false, "/tmp/out", "data/b/c.txt");
    assert_eq!(p2, "/tmp/out/data/b/c.txt");
}

// Local directory /home/x/proj/ (trailing slash) uploaded to s3://bucket/dst:
// contents land directly under the dst prefix.
#[test]
fn upload_mapping_trailing_slash_tree() {
    let k1 = upload_remote_key("dst", "/home/x/proj/", "/home/x/proj/f1.txt");
    assert_eq!(k1, "dst/f1.txt");
    let k2 = upload_remote_key("dst", "/home/x/proj/", "/home/x/proj/sub/f2.txt");
    assert_eq!(k2, "dst/sub/f2.txt");
}

// Without a trailing slash on the local root, the remote side gets an extra
// basename(root) segment.
#[test]
fn upload_mapping_no_trailing_slash_tree() {
    let k1 = upload_remote_key("dst", "/home/x/proj", "/home/x/proj/f1.txt");
    assert_eq!(k1, "dst/proj/f1.txt");
    let k2 = upload_remote_key("dst", "/home/x/proj", "/home/x/proj/sub/f2.txt");
    assert_eq!(k2, "dst/proj/sub/f2.txt");
}

// Two s3:// addresses are rejected before any transfer is attempted.
#[test]
fn classify_both_remote_rejected() {
    let r = classify("s3://bucket/a", "s3://bucket/b");
    assert_eq!(r, Err(SyncError::BothRemoteUnsupported));
}

#[test]
fn classify_both_local_rejected() {
    let r = classify("/tmp/a", "/tmp/b");
    assert_eq!(r, Err(SyncError::BothLocalUnsupported));
}

#[test]
fn classify_directions() {
    assert_eq!(classify("s3://bucket/a", "/tmp/b"), Ok(Direction::Download));
    assert_eq!(classify("/tmp/a", "s3://bucket/b"), Ok(Direction::Upload));
}

#[test]
fn parse_endpoint_remote_trailing() {
    match parse_endpoint("s3://bucket/data/") {
        Ok(Endpoint::Remote { bucket, key, trailing }) => {
            assert_eq!(bucket, "bucket");
            assert_eq!(key, "data/");
            assert!(trailing);
        }
        other => panic!("unexpected endpoint: {:?}", other),
    }
}

#[test]
fn parse_endpoint_remote_no_trailing() {
    match parse_endpoint("s3://bucket/data/b") {
        Ok(Endpoint::Remote { bucket, key, trailing }) => {
            assert_eq!(bucket, "bucket");
            assert_eq!(key, "data/b");
            assert!(!trailing);
        }
        other => panic!("unexpected endpoint: {:?}", other),
    }
}

#[test]
fn parse_endpoint_local() {
    match parse_endpoint("/tmp/out") {
        Ok(Endpoint::Local { path }) => assert_eq!(path, "/tmp/out"),
        other => panic!("unexpected endpoint: {:?}", other),
    }
}

#[test]
fn parse_endpoint_invalid_address() {
    let r = parse_endpoint("s3://bad host/x");
    match r {
        Err(SyncError::InvalidAddress) => {}
        other => panic!("unexpected result: {:?}", other),
    }
}

#[test]
fn error_messages() {
    assert_eq!(SyncError::InvalidAddress.describe(), "invalid address");
    assert_eq!(
        SyncError::BothRemoteUnsupported.describe(),
        "both s3 address not supported"
    );
    assert_eq!(
        SyncError::BothLocalUnsupported.describe(),
        "both local address not supported"
    );
    assert_eq!(SyncError::LocalIOError.describe(), "local io error");
    assert_eq!(
        SyncError::RemoteOperationError.describe(),
        "remote operation failed"
    );
}
