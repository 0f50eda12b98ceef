//! The content-hash collaborator.
//!
//! The batch decides whether a local file satisfies a manifest entry by its
//! MD5 digest. The digest itself is computed by an outside crate; this module
//! names its result so that the verifier's contract can speak of it exactly.

use vstd::prelude::*;

verus! {

pub uninterp spec fn md5_of(bytes: Seq<u8>) -> Seq<u8>;

/// Relies on md5::compute: the 16-byte MD5 digest (RFC 1321) of the input,
/// a function of the input bytes alone.
#[verifier::external_body]
pub(crate) fn md5_digest(bytes: &[u8]) -> (r: Vec<u8>)
    ensures
        r@ == md5_of(bytes@),
        r@.len() == 16,
{
    md5::compute(bytes).0.to_vec()
}

} // verus!
