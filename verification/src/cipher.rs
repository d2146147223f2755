//! Authenticated encryption of the private key material.
//!
//! The cipher is AES-256 in Galois/Counter mode with a 96-bit nonce, a
//! 128-bit tag appended to the ciphertext, and no associated data.

use aes_gcm::aead::Aead;
use aes_gcm::{Aes256Gcm, Key, KeyInit, Nonce};
use vstd::prelude::*;

verus! {

/// Bytes of a nonce.
pub const NONCE_LEN: usize = 12;

/// Bytes of the tag at the end of a ciphertext.
pub const TAG_LEN: usize = 16;

/// The longest plaintext the cipher seals: 2^36 bytes.
pub const MAX_PLAINTEXT_LEN: u64 = 0x10_0000_0000;

/// The ciphertext, tag included, that AES-256-GCM gives for `plaintext`
/// under `key` and `nonce`.
pub uninterp spec fn aes_256_gcm_sealed(key: Seq<u8>, nonce: Seq<u8>, plaintext: Seq<u8>) -> Seq<
    u8,
>;

/// The plaintext that AES-256-GCM recovers from `ciphertext` under `key` and
/// `nonce`, or `None` where it does not authenticate.
pub uninterp spec fn aes_256_gcm_opened(key: Seq<u8>, nonce: Seq<u8>, ciphertext: Seq<u8>) -> Option<
    Seq<u8>,
>;

/// The cipher's opaque failure.
#[verifier::external_type_specification]
#[verifier::external_body]
pub struct ExCipherError(aes_gcm::Error);

/// Trusted: `Aead::encrypt` of `aes_gcm::Aes256Gcm`, made with
/// `KeyInit::new` from `key`.
///
/// Claims that the cipher fails exactly on a plaintext longer than 2^36
/// bytes; that otherwise the result is the cipher's ciphertext, 16 bytes
/// longer than the plaintext; and that decrypting this ciphertext under the
/// same key and nonce gives the plaintext back. The call reserves the
/// plaintext's length plus 16 bytes, so a length for which that exceeds the
/// largest allocation is left out.
#[verifier::external_body]
pub(crate) fn seal(key: &[u8; 32], nonce: &[u8; 12], plaintext: &[u8]) -> (r: Result<
    Vec<u8>,
    aes_gcm::Error,
>)
    requires
        plaintext@.len() + TAG_LEN <= usize::MAX / 2,
    ensures
        r is Ok <==> plaintext@.len() <= MAX_PLAINTEXT_LEN,
        r matches Ok(ciphertext) ==> {
            &&& ciphertext@ == aes_256_gcm_sealed(key@, nonce@, plaintext@)
            &&& ciphertext@.len() == plaintext@.len() + TAG_LEN
            &&& aes_256_gcm_opened(key@, nonce@, ciphertext@) == Some(plaintext@)
        },
{
    Aes256Gcm::new(Key::<Aes256Gcm>::from_slice(key)).encrypt(Nonce::from_slice(nonce), plaintext)
}

/// Trusted: `Aead::decrypt` of `aes_gcm::Aes256Gcm`, made with
/// `KeyInit::new` from `key`.
///
/// Claims that the result is the cipher's reading of `ciphertext`, an error
/// exactly where it does not authenticate, and that a recovered plaintext
/// is the ciphertext without its 16 bytes of tag. The nonce is taken with
/// `GenericArray::from_slice`, which panics on any length but 12, so other
/// lengths are left out.
#[verifier::external_body]
pub(crate) fn open(key: &[u8; 32], nonce: &[u8], ciphertext: &[u8]) -> (r: Result<
    Vec<u8>,
    aes_gcm::Error,
>)
    requires
        nonce@.len() == NONCE_LEN,
    ensures
        match r {
            Ok(plaintext) => {
                &&& aes_256_gcm_opened(key@, nonce@, ciphertext@) == Some(plaintext@)
                &&& plaintext@.len() + TAG_LEN == ciphertext@.len()
            },
            Err(_) => aes_256_gcm_opened(key@, nonce@, ciphertext@) is None,
        },
{
    Aes256Gcm::new(Key::<Aes256Gcm>::from_slice(key)).decrypt(Nonce::from_slice(nonce), ciphertext)
}

} // verus!
