use vstd::prelude::*;

verus! {

/// The SHA-1 digest of a byte string.
pub uninterp spec fn sha1_of(data: Seq<u8>) -> Seq<u8>;

/// The SHA-256 digest of a byte string.
pub uninterp spec fn sha256_of(data: Seq<u8>) -> Seq<u8>;

/// Relies on `sha1::Sha1::digest` (the `Digest` trait of `digest` 0.10): the
/// 20-byte SHA-1 digest of `data`.
#[verifier::external_body]
pub(crate) fn sha1_digest(data: &[u8]) -> (r: Vec<u8>)
    ensures
        r@ == sha1_of(data@),
        r@.len() == 20,
{
    <sha1::Sha1 as sha1::Digest>::digest(data).to_vec()
}

/// Relies on `sha2::Sha256::digest` (the `Digest` trait of `digest` 0.10): the
/// 32-byte SHA-256 digest of `data`.
#[verifier::external_body]
pub(crate) fn sha256_digest(data: &[u8]) -> (r: Vec<u8>)
    ensures
        r@ == sha256_of(data@),
        r@.len() == 32,
{
    <sha2::Sha256 as sha2::Digest>::digest(data).to_vec()
}

} // verus!
