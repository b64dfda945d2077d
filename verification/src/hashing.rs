//! SHA-256 digests, computed by the `sha2` crate.
use vstd::prelude::*;

verus! {

/// The SHA-256 digest of a byte sequence.
pub uninterp spec fn sha256(input: Seq<u8>) -> Seq<u8>;

/// The SHA-256 digest of `input` (`Sha256::digest`), which is 32 bytes long.
#[verifier::external_body]
pub(crate) fn sha256_digest(input: &[u8]) -> (r: Vec<u8>)
    ensures
        r@ == sha256(input@),
        r@.len() == 32,
{
    <sha2::Sha256 as sha2::Digest>::digest(input).to_vec()
}

} // verus!
