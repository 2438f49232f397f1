//! Digests of the exact bytes that a fingerprint or a content identity rests on.

use sha1::Sha1;
use sha2::Digest;
use sha2::Sha256;
use vstd::prelude::*;

verus! {

/// The SHA-256 digest of some bytes.
pub uninterp spec fn sha256(data: Seq<u8>) -> Seq<u8>;

/// The SHA-1 digest of some bytes.
pub uninterp spec fn sha1(data: Seq<u8>) -> Seq<u8>;

/// Calls `Sha256::digest` of the `sha2` crate. The result is a function of the bytes alone, and
/// holds thirty-two of them.
#[verifier::external_body]
pub(crate) fn sha256_digest(data: &[u8]) -> (output: Vec<u8>)
    ensures
        output@ == sha256(data@),
        output@.len() == 32,
{
    Sha256::digest(data).to_vec()
}

/// Calls `Sha1::digest` of the `sha1` crate. The result is a function of the bytes alone, and
/// holds twenty of them.
#[verifier::external_body]
pub(crate) fn sha1_digest(data: &[u8]) -> (output: Vec<u8>)
    ensures
        output@ == sha1(data@),
        output@.len() == 20,
{
    Sha1::digest(data).to_vec()
}

} // verus!
