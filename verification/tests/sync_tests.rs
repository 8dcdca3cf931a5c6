use musync::digest::{checkfile, normalize_digest};
use musync::endpoint::Direction;
use musync::sync::{decide_download, plan_download_entry, plan_upload_entry, plan_upload_single,
    Action, RemoteObject};

const HELLO_MD5: &str = "5d41402abc4b2a76b9719d911017c592";

#[test]
fn checkfile_matches_known_digest() {
    assert!(checkfile(b"hello", HELLO_MD5));
}

#[test]
fn checkfile_rejects_wrong_digest() {
    assert!(!checkfile(b"hello", "00000000000000000000000000000000"));
    assert!(!checkfile(b"hello!", HELLO_MD5));
}

#[test]
fn checkfile_empty_input() {
    // The MD5 digest of the empty byte string.
    assert!(checkfile(b"", "d41d8cd98f00b204e9800998ecf8427e"));
}

#[test]
fn normalize_digest_strips_quotes() {
    assert_eq!(normalize_digest("\"abc123\""), "abc123");
    assert_eq!(normalize_digest("abc123"), "abc123");
    assert_eq!(normalize_digest("\"\""), "");
}

#[test]
fn decide_download_skips_matching_file() {
    let contents = Some(b"hello".to_vec());
    let quoted = format!("\"{}\"", HELLO_MD5);
    assert_eq!(decide_download(&contents, &quoted), Action::Skip);
    assert_eq!(decide_download(&contents, HELLO_MD5), Action::Skip);
}

#[test]
fn decide_download_transfers_on_mismatch() {
    let contents = Some(b"changed".to_vec());
    assert_eq!(decide_download(&contents, HELLO_MD5), Action::Transfer);
}

// A file deleted between two runs is re-downloaded: skipping requires local
// existence, so absent contents always decide Transfer.
#[test]
fn decide_download_transfers_on_missing_file() {
    assert_eq!(decide_download(&None, HELLO_MD5), Action::Transfer);
}

#[test]
fn plan_download_entry_skip() {
    let obj = RemoteObject {
        key: String::from("data/a.txt"),
        size: 5,
        last_modified: String::from("2020-01-01T00:00:00Z"),
        e_tag: format!("\"{}\"", HELLO_MD5),
    };
    let plan = plan_download_entry("data/", true, "/tmp/out", &obj, &Some(b"hello".to_vec()));
    assert_eq!(plan.direction, Direction::Download);
    assert_eq!(plan.local_path, "/tmp/out/a.txt");
    assert_eq!(plan.remote_key, "data/a.txt");
    assert_eq!(plan.action, Action::Skip);
}

#[test]
fn plan_download_entry_transfer() {
    let obj = RemoteObject {
        key: String::from("data/b/c.txt"),
        size: 5,
        last_modified: String::from("2020-01-01T00:00:00Z"),
        e_tag: format!("\"{}\"", HELLO_MD5),
    };
    let plan = plan_download_entry("data", false, "/tmp/out", &obj, &None);
    assert_eq!(plan.direction, Direction::Download);
    assert_eq!(plan.local_path, "/tmp/out/data/b/c.txt");
    assert_eq!(plan.remote_key, "data/b/c.txt");
    assert_eq!(plan.action, Action::Transfer);
}

// Uploads are never conditional: planning the same unchanged entry twice
// yields a transfer both times; no skip path exists for uploads.
#[test]
fn plan_upload_entry_always_transfers() {
    let first = plan_upload_entry("dst", "/home/x/proj/", "/home/x/proj/f1.txt");
    assert_eq!(first.direction, Direction::Upload);
    assert_eq!(first.action, Action::Transfer);
    assert_eq!(first.remote_key, "dst/f1.txt");
    assert_eq!(first.local_path, "/home/x/proj/f1.txt");
    let second = plan_upload_entry("dst", "/home/x/proj/", "/home/x/proj/f1.txt");
    assert_eq!(second.action, Action::Transfer);
}

#[test]
fn plan_upload_entry_trims_prefix_slash() {
    let plan = plan_upload_entry("dst/", "/home/x/proj/", "/home/x/proj/f1.txt");
    assert_eq!(plan.remote_key, "dst/f1.txt");
}

#[test]
fn plan_upload_single_uses_bare_prefix() {
    let plan = plan_upload_single("dst/file.bin/", "/tmp/file.bin");
    assert_eq!(plan.direction, Direction::Upload);
    assert_eq!(plan.action, Action::Transfer);
    assert_eq!(plan.remote_key, "dst/file.bin");
    assert_eq!(plan.local_path, "/tmp/file.bin");
}
