//! SHA-2 digests, as the `sha2` crate computes them.
use vstd::prelude::*;
use sha2::Digest;

verus! {

/// The SHA-512 digest of `data`.
pub uninterp spec fn sha512_digest(data: Seq<u8>) -> Seq<u8>;

/// The SHA-256 digest of `data`.
pub uninterp spec fn sha256_digest(data: Seq<u8>) -> Seq<u8>;

/// `sha2::Sha512::digest`: the 64-byte SHA-512 digest of `data`.  Feeding
/// the hasher several pieces in turn gives the digest of their concatenation,
/// so callers hash the whole input at once.
#[verifier::external_body]
pub(crate) fn sha512(data: &[u8]) -> (res: [u8; 64])
    ensures
        res@ == sha512_digest(data@),
{
    sha2::Sha512::digest(data).into()
}

/// `sha2::Sha256::digest`: the 32-byte SHA-256 digest of `data`.
#[verifier::external_body]
pub(crate) fn sha256(data: &[u8]) -> (res: [u8; 32])
    ensures
        res@ == sha256_digest(data@),
{
    sha2::Sha256::digest(data).into()
}

} // verus!
