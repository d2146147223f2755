//! The symmetric key that protects a package, derived from a password.

use sha2::Sha256;
use vstd::prelude::*;

verus! {

/// How often the hash is iterated when a package is sealed or opened.
pub const PBKDF2_ITERATIONS: u32 = 600_000;

/// The 32 bytes that PBKDF2 with HMAC-SHA-256 derives from `password` and
/// `salt` in `rounds` iterations.
pub uninterp spec fn pbkdf2_hmac_sha256(password: Seq<u8>, salt: Seq<u8>, rounds: u32) -> Seq<u8>;

/// Trusted: `pbkdf2::pbkdf2_hmac` with `sha2::Sha256`, filling 32 bytes.
///
/// Claims that the key is a function of the password, the salt and the
/// number of rounds alone.
#[verifier::external_body]
fn derive_key(password: &[u8], salt: &[u8], rounds: u32) -> (key: [u8; 32])
    ensures
        key@ == pbkdf2_hmac_sha256(password@, salt@, rounds),
{
    let mut key = [0u8; 32];
    pbkdf2::pbkdf2_hmac::<Sha256>(password, salt, rounds, &mut key);
    key
}

/// Derives the 32-byte key for `password` and `salt` in `iterations`
/// rounds. The same arguments always give the same key.
pub fn derive(password: &[u8], salt: &[u8], iterations: u32) -> (key: [u8; 32])
    ensures
        key@ == pbkdf2_hmac_sha256(password@, salt@, iterations),
{
    derive_key(password, salt, iterations)
}

} // verus!
