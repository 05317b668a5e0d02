//! Fresh random bytes from the thread-local generator of the `rand` crate.

use vstd::prelude::*;

verus! {

/// Fills a new buffer of `len` bytes by `RngCore::fill_bytes` on
/// `rand::thread_rng()`. Only the length is known of what comes back: two
/// calls need not agree. The generator panics where the operating system
/// gives it no seed.
#[verifier::external_body]
pub(crate) fn random_bytes(len: usize) -> (bytes: Vec<u8>)
    ensures
        bytes@.len() == len,
{
    let mut bytes = vec![0u8; len];
    rand::RngCore::fill_bytes(&mut rand::thread_rng(), &mut bytes);
    bytes
}

} // verus!
