use etheria_downloader::hashes::digest_matches;
use etheria_downloader::verification::{content_satisfies, verify_local};

#[test]
fn empty_content_md5_satisfies() {
    // The well-known digest of empty content: a zero-length existing file
    // satisfies such an entry without any fetch.
    let empty: Vec<u8> = Vec::new();
    assert!(content_satisfies(
        "d41d8cd98f00b204e9800998ecf8427e",
        empty.as_slice()
    ));
}

#[test]
fn known_digest_matches() {
    assert!(content_satisfies(
        "900150983cd24fb0d6963f7d28e17f72",
        b"abc"
    ));
    assert!(content_satisfies(
        "5eb63bbbe01eeed093cb22bb8f5acdc3",
        b"hello world"
    ));
}

#[test]
fn digest_comparison_is_case_insensitive() {
    assert!(content_satisfies(
        "900150983CD24FB0D6963F7D28E17F72",
        b"abc"
    ));
    assert!(content_satisfies(
        "D41D8CD98F00B204E9800998ECF8427E",
        b""
    ));
}

#[test]
fn wrong_digest_does_not_match() {
    assert!(!content_satisfies(
        "900150983cd24fb0d6963f7d28e17f72",
        b"abcd"
    ));
    assert!(!content_satisfies("00", b"abc"));
    assert!(!content_satisfies("", b"abc"));
}

#[test]
fn unreadable_file_is_never_satisfied() {
    assert!(!verify_local("d41d8cd98f00b204e9800998ecf8427e", None));
}

#[test]
fn readable_file_verifies_by_content() {
    let good: Vec<u8> = b"abc".to_vec();
    let bad: Vec<u8> = b"abx".to_vec();
    assert!(verify_local(
        "900150983cd24fb0d6963f7d28e17f72",
        Some(&good)
    ));
    assert!(!verify_local("900150983cd24fb0d6963f7d28e17f72", Some(&bad)));
}

#[test]
fn verification_is_idempotent() {
    // Two passes over the same unchanged content report the same outcome.
    let content: Vec<u8> = b"hello world".to_vec();
    let first = verify_local("5eb63bbbe01eeed093cb22bb8f5acdc3", Some(&content));
    let second = verify_local("5eb63bbbe01eeed093cb22bb8f5acdc3", Some(&content));
    assert!(first);
    assert!(second);
    assert_eq!(content, b"hello world".to_vec());
}

#[test]
fn digest_matches_exact_rendering() {
    let digest: Vec<u8> = vec![0xd4, 0x1d, 0x8c, 0x00];
    assert!(digest_matches(&digest, "d41d8c00"));
    assert!(digest_matches(&digest, "D41D8C00"));
    assert!(!digest_matches(&digest, "d41d8c0"));
    assert!(!digest_matches(&digest, "d41d8c000"));
    assert!(!digest_matches(&digest, "d41d8c01"));
}
