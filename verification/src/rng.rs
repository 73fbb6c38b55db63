//! Cryptographically secure random bytes, drawn from the operating system's
//! entropy pool through `rand`'s thread-local generator.

use vstd::prelude::*;

verus! {

/// Relies on rand::rngs::ThreadRng::fill_bytes (via rand::thread_rng):
/// overwrites the slice in place with random bytes, so the length of the
/// vector is unchanged. Nothing is promised of the values drawn.
#[verifier::external_body]
fn fill_random(buf: &mut Vec<u8>)
    ensures
        final(buf)@.len() == old(buf)@.len(),
{
    rand::RngCore::fill_bytes(&mut rand::thread_rng(), buf.as_mut_slice());
}

/// Generate cryptographically secure random bytes.
pub fn generate_random_bytes(len: usize) -> (r: Vec<u8>)
    ensures
        r@.len() == len,
{
    let mut bytes: Vec<u8> = Vec::new();
    let mut i: usize = 0;
    while i < len
        invariant
            0 <= i <= len,
            bytes@.len() == i,
        decreases len - i,
    {
        bytes.push(0u8);
        i = i + 1;
    }
    fill_random(&mut bytes);
    bytes
}

/// Generate a random 32-byte salt for key derivation.
pub fn generate_salt() -> (r: Vec<u8>)
    ensures
        r@.len() == 32,
{
    generate_random_bytes(32)
}

} // verus!
