//! Fresh random bytes for salts and nonces.

use rand::RngCore;
use vstd::prelude::*;

verus! {

/// Trusted: `RngCore::fill_bytes` of `rand::thread_rng()`.
///
/// Nothing is claimed of the bytes: every value of the array is a possible
/// outcome. The generator panics where the operating system gives it no
/// entropy, which this library treats as fatal.
#[verifier::external_body]
pub(crate) fn random_bytes<const N: usize>() -> (bytes: [u8; N]) {
    let mut bytes = [0u8; N];
    rand::thread_rng().fill_bytes(&mut bytes);
    bytes
}

} // verus!
