//! The Entry Verifier: does a local file already satisfy a manifest entry?
//!
//! Verification is a pure function of the entry's expected hash and the
//! file's bytes: the MD5 digest of the bytes must equal the expected hash,
//! compared case-insensitively as hex. A file that could not be read at all
//! folds into "not satisfied": the batch then (re)downloads instead of
//! aborting.

use vstd::prelude::*;

use crate::digest::{md5_digest, md5_of};
use crate::hashes::{digest_matches, hex_matches_ci};

verus! {

/// Whether content with these bytes satisfies an entry with this expected
/// hash: the MD5 digest of the bytes matches the hash, case-insensitively.
pub open spec fn entry_ok(expected_hash: Seq<char>, content: Seq<u8>) -> bool {
    hex_matches_ci(expected_hash, md5_of(content))
}

/// Whether a local read outcome satisfies the expected hash: an unreadable
/// or absent file (`None`) never does.
pub open spec fn local_ok(expected_hash: Seq<char>, content: Option<Seq<u8>>) -> bool {
    match content {
        Some(bytes) => entry_ok(expected_hash, bytes),
        None => false,
    }
}

/// Hash the given content and compare it to the expected hex digest.
pub fn content_satisfies(expected_hash: &str, content: &[u8]) -> (r: bool)
    ensures
        r == entry_ok(expected_hash@, content@),
{
    let digest = md5_digest(content);
    digest_matches(&digest, expected_hash)
}

/// The verification pass over what a local read produced: `None` stands for
/// a file that is absent or unreadable and reports "not satisfied"; `Some`
/// content is hashed and compared.
pub fn verify_local(expected_hash: &str, content: Option<&Vec<u8>>) -> (r: bool)
    ensures
        r == local_ok(
            expected_hash@,
            match content {
                Some(bytes) => Some(bytes@),
                None => None,
            },
        ),
{
    match content {
        Some(bytes) => content_satisfies(expected_hash, bytes.as_slice()),
        None => false,
    }
}
/// Verification is idempotent: its verdict is a function of the expected
/// hash and the file's bytes alone, and verifying never mutates the file, so
/// any two passes over the same unchanged content report the same verdict —
/// in particular, an already-satisfied file is satisfied both times.
pub proof fn lemma_verification_idempotent(
    expected_hash: Seq<char>,
    content: Option<Seq<u8>>,
    first: bool,
    second: bool,
)
    requires
        first == local_ok(expected_hash, content),
        second == local_ok(expected_hash, content),
    ensures
        first == second,
{
}

} // verus!
