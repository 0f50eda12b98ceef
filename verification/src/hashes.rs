//! Hex digests and their case-insensitive comparison.
//!
//! A manifest names each asset's expected content hash as a hex string. The
//! verifier renders the computed digest in lowercase hex and compares it to
//! that string, folding ASCII uppercase so the comparison is
//! case-insensitive.

use vstd::prelude::*;

verus! {

/// The lowercase hex character for a nibble.
pub open spec fn hex_digit(n: u8) -> char
    recommends
        n < 16,
{
    if n < 10 {
        ((n + 48) as u8) as char
    } else {
        ((n + 87) as u8) as char
    }
}

/// An ASCII uppercase letter folded to lowercase; anything else unchanged.
pub open spec fn fold_char(c: char) -> char {
    if 'A' <= c && c <= 'Z' {
        (((c as u8) + 32) as u8) as char
    } else {
        c
    }
}

/// The lowercase hex rendering of a byte sequence: two characters per byte,
/// high nibble first.
pub open spec fn hex_of(bytes: Seq<u8>) -> Seq<char> {
    Seq::new(
        bytes.len() * 2,
        |i: int|
            if i % 2 == 0 {
                hex_digit((bytes[i / 2] / 16) as u8)
            } else {
                hex_digit((bytes[i / 2] % 16) as u8)
            },
    )
}

/// Whether the hex string `expected` names the byte sequence `digest`,
/// compared case-insensitively: same length as the hex rendering, and each
/// character equal to it after case folding.
pub open spec fn hex_matches_ci(expected: Seq<char>, digest: Seq<u8>) -> bool {
    &&& expected.len() == digest.len() * 2
    &&& forall|i: int| 0 <= i < expected.len() ==> fold_char(expected[i]) == hex_of(digest)[i]
}

/// The lowercase hex character for a nibble.
fn hex_digit_char(n: u8) -> (c: char)
    requires
        n < 16,
    ensures
        c == hex_digit(n),
{
    if n < 10 {
        (n + 48) as char
    } else {
        (n + 87) as char
    }
}

/// Fold an ASCII uppercase letter to lowercase.
fn fold_char_ascii(c: char) -> (r: char)
    ensures
        r == fold_char(c),
{
    if 'A' <= c && c <= 'Z' {
        ((c as u8) + 32) as char
    } else {
        c
    }
}

/// Compare a hex string against a digest, case-insensitively.
///
/// Returns true exactly when `expected` is the hex rendering of `digest` up
/// to ASCII case.
pub fn digest_matches(digest: &Vec<u8>, expected: &str) -> (r: bool)
    requires
        digest@.len() * 2 <= usize::MAX,
    ensures
        r == hex_matches_ci(expected@, digest@),
{
    let n = expected.unicode_len();
    if n != digest.len() * 2 {
        return false;
    }
    let mut i: usize = 0;
    while i < n
        invariant
            n == expected@.len(),
            n == digest@.len() * 2,
            i <= n,
            forall|j: int| 0 <= j < i ==> fold_char(expected@[j]) == hex_of(digest@)[j],
        decreases n - i,
    {
        let c = expected.get_char(i);
        let b = digest[i / 2];
        let nib: u8 = if i % 2 == 0 {
            b / 16
        } else {
            b % 16
        };
        let h = hex_digit_char(nib);
        if fold_char_ascii(c) != h {
            assert(fold_char(expected@[i as int]) != hex_of(digest@)[i as int]);
            return false;
        }
        i = i + 1;
    }
    true
}

} // verus!
