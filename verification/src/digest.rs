//! SHA-256, as the `ring` crate computes it.

use vstd::prelude::*;

verus! {

/// The length of a SHA-256 digest in bytes.
pub const SHA256_LEN: usize = 32;

/// The number of input bytes from which on `ring` refuses to hash: the length
/// in bits must fit in 64 bits.
pub const SHA256_INPUT_LIMIT: u64 = 0x2000_0000_0000_0000;

/// The SHA-256 digest of `data`, as `ring::digest::digest` computes it with
/// `ring::digest::SHA256`.
pub uninterp spec fn sha256_digest(data: Seq<u8>) -> Seq<u8>;

/// Calls `ring::digest::digest` with `ring::digest::SHA256` and copies the
/// digest out. The contract names the digest and states its length, 32 bytes,
/// which is `SHA256_OUTPUT_LEN` of that crate. The call panics on an input of
/// 2^61 bytes or more, which the bound on the input rules out.
#[verifier::external_body]
pub(crate) fn sha256(data: &[u8]) -> (digest: Vec<u8>)
    requires
        data@.len() < SHA256_INPUT_LIMIT,
    ensures
        digest@ == sha256_digest(data@),
        digest@.len() == SHA256_LEN,
{
    ring::digest::digest(&ring::digest::SHA256, data).as_ref().to_vec()
}

} // verus!
