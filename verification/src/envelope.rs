//! Sealing private key material under a password, and opening it again.
//!
//! A package is sealed with a key derived from the password and a salt, and
//! a nonce; both are stored beside the ciphertext, all three as base64
//! text. Opening reverses each step and fails as a whole where any of them
//! fails.

use crate::cipher::{
    aes_256_gcm_opened, aes_256_gcm_sealed, open, seal, MAX_PLAINTEXT_LEN, NONCE_LEN, TAG_LEN,
};
use crate::codec::{base64_bytes, base64_text, decode, encodable, encode, is_encodable};
use crate::error::KeyError;
use crate::kdf::{pbkdf2_hmac_sha256, PBKDF2_ITERATIONS};
use crate::package::{EncryptedKeyResponse, PackageText};
use crate::random::random_bytes;
use vstd::prelude::*;

verus! {

/// Bytes of a salt.
pub const SALT_LEN: usize = 16;

/// A plaintext of this length can be sealed: the cipher takes it, and the
/// text of the ciphertext can be allocated.
pub open spec fn sealable(len: int) -> bool {
    len <= MAX_PLAINTEXT_LEN && encodable(len + TAG_LEN)
}

/// The fields of `package` are base64 text of a ciphertext that holds at
/// least the tag, of a 16-byte salt and of a 12-byte nonce.
pub open spec fn well_formed(package: PackageText) -> bool {
    &&& base64_bytes(package.encrypted_data_base64) matches Some(ciphertext) && ciphertext.len()
        >= TAG_LEN
    &&& base64_bytes(package.salt_base64) matches Some(salt) && salt.len() == SALT_LEN
    &&& base64_bytes(package.nonce_base64) matches Some(nonce) && nonce.len() == NONCE_LEN
}

/// The package that holds `plaintext`, sealed under `password` with the
/// given salt and nonce.
pub open spec fn sealed_package(
    plaintext: Seq<u8>,
    password: Seq<u8>,
    salt: Seq<u8>,
    nonce: Seq<u8>,
    rounds: u32,
) -> PackageText {
    PackageText {
        encrypted_data_base64: base64_text(
            aes_256_gcm_sealed(pbkdf2_hmac_sha256(password, salt, rounds), nonce, plaintext),
        ),
        salt_base64: base64_text(salt),
        nonce_base64: base64_text(nonce),
    }
}

/// What opening `package` with `password` gives: the authenticated
/// plaintext, or the first step that fails. The fields are decoded in the
/// order ciphertext, salt, nonce. A nonce of any length but 12, a
/// ciphertext that does not authenticate under the derived key, and a wrong
/// password are all the one failure `Decryption`.
pub open spec fn opened_package(package: PackageText, password: Seq<u8>, rounds: u32) -> Result<
    Seq<u8>,
    KeyError,
> {
    match base64_bytes(package.encrypted_data_base64) {
        None => Err(KeyError::DecodeEncryptedData),
        Some(ciphertext) => match base64_bytes(package.salt_base64) {
            None => Err(KeyError::DecodeSalt),
            Some(salt) => match base64_bytes(package.nonce_base64) {
                None => Err(KeyError::DecodeNonce),
                Some(nonce) => if nonce.len() != NONCE_LEN {
                    Err(KeyError::Decryption)
                } else {
                    match aes_256_gcm_opened(
                        pbkdf2_hmac_sha256(password, salt, rounds),
                        nonce,
                        ciphertext,
                    ) {
                        None => Err(KeyError::Decryption),
                        Some(plaintext) => Ok(plaintext),
                    }
                },
            },
        },
    }
}

/// The outcome is a plaintext or the failure `Decryption`: no field failed
/// to decode.
pub open spec fn authenticated_or_refused(outcome: Result<Seq<u8>, KeyError>) -> bool {
    outcome is Ok || outcome == Err::<Seq<u8>, KeyError>(KeyError::Decryption)
}

/// Seals `plaintext` under `password` with a given salt, nonce and number
/// of derivation rounds.
///
/// Succeeds exactly on a plaintext that can be sealed. The package is then
/// fixed by the arguments, and opening it with the same password and rounds
/// gives the plaintext back. Opening it with any other password, under
/// whose key the cipher does not authenticate the ciphertext, fails with
/// `Decryption`.
pub fn seal_with(
    plaintext: &[u8],
    password: &[u8],
    salt: &[u8; 16],
    nonce: &[u8; 12],
    rounds: u32,
) -> (r: Result<EncryptedKeyResponse, KeyError>)
    ensures
        r is Ok <==> sealable(plaintext@.len() as int),
        r matches Ok(package) ==> {
            &&& well_formed(package@)
            &&& package@ == sealed_package(plaintext@, password@, salt@, nonce@, rounds)
            &&& opened_package(package@, password@, rounds) == Ok::<Seq<u8>, KeyError>(
                plaintext@,
            )
        },
        r matches Ok(package) ==> forall|other: Seq<u8>|
            aes_256_gcm_opened(
                pbkdf2_hmac_sha256(other, salt@, rounds),
                nonce@,
                aes_256_gcm_sealed(pbkdf2_hmac_sha256(password@, salt@, rounds), nonce@, plaintext@),
            ) is None ==> #[trigger] opened_package(package@, other, rounds) == Err::<
                Seq<u8>,
                KeyError,
            >(KeyError::Decryption),
        r matches Err(e) ==> e == KeyError::Encryption,
{
    if plaintext.len() > usize::MAX / 2 - TAG_LEN || !is_encodable(plaintext.len() + TAG_LEN) {
        return Err(KeyError::Encryption);
    }
    let key = crate::kdf::derive(password, salt.as_slice(), rounds);
    match seal(&key, nonce, plaintext) {
        Err(_) => Err(KeyError::Encryption),
        Ok(ciphertext) => {
            let package = EncryptedKeyResponse {
                encrypted_data_base64: encode(ciphertext.as_slice()),
                salt_base64: encode(salt.as_slice()),
                nonce_base64: encode(nonce.as_slice()),
            };
            Ok(package)
        },
    }
}

/// Seals `plaintext` under `password` with a fresh random salt and nonce.
///
/// Succeeds exactly on a plaintext that can be sealed. The package is then
/// the one that some 16-byte salt and 12-byte nonce give, and opening it
/// with the same password gives the plaintext back. Whatever the password,
/// opening it gives an authenticated plaintext or fails with `Decryption`.
pub fn wrap(plaintext: &[u8], password: &[u8]) -> (r: Result<EncryptedKeyResponse, KeyError>)
    ensures
        r is Ok <==> sealable(plaintext@.len() as int),
        r matches Ok(package) ==> {
            &&& well_formed(package@)
            &&& exists|salt: Seq<u8>, nonce: Seq<u8>|
                {
                    &&& salt.len() == SALT_LEN
                    &&& nonce.len() == NONCE_LEN
                    &&& package@ == #[trigger] sealed_package(
                        plaintext@,
                        password@,
                        salt,
                        nonce,
                        PBKDF2_ITERATIONS,
                    )
                }
            &&& opened_package(package@, password@, PBKDF2_ITERATIONS) == Ok::<
                Seq<u8>,
                KeyError,
            >(plaintext@)
        },
        r matches Ok(package) ==> forall|other: Seq<u8>|
            authenticated_or_refused(#[trigger] opened_package(package@, other, PBKDF2_ITERATIONS)),
        r matches Err(e) ==> e == KeyError::Encryption,
{
    let salt: [u8; 16] = random_bytes::<16>();
    let nonce: [u8; 12] = random_bytes::<12>();
    seal_with(plaintext, password, &salt, &nonce, PBKDF2_ITERATIONS)
}

/// Opens `package` with `password` and a given number of derivation rounds.
///
/// Returns the authenticated plaintext or the failure, exactly as
/// [`opened_package`] says; nothing of the plaintext is returned with a
/// failure. A plaintext is shorter than the text it was read from, so its
/// own base64 text can be allocated.
pub fn open_with(package: &EncryptedKeyResponse, password: &[u8], rounds: u32) -> (r: Result<
    Vec<u8>,
    KeyError,
>)
    ensures
        match r {
            Ok(plaintext) => opened_package(package@, password@, rounds) == Ok::<
                Seq<u8>,
                KeyError,
            >(plaintext@),
            Err(e) => opened_package(package@, password@, rounds) == Err::<Seq<u8>, KeyError>(e),
        },
        r matches Ok(plaintext) ==> encodable(plaintext@.len() as int),
{
    let ciphertext = match decode(package.encrypted_data_base64.as_str()) {
        Ok(bytes) => bytes,
        Err(_) => { return Err(KeyError::DecodeEncryptedData); },
    };
    let salt = match decode(package.salt_base64.as_str()) {
        Ok(bytes) => bytes,
        Err(_) => { return Err(KeyError::DecodeSalt); },
    };
    let nonce = match decode(package.nonce_base64.as_str()) {
        Ok(bytes) => bytes,
        Err(_) => { return Err(KeyError::DecodeNonce); },
    };
    if nonce.len() != NONCE_LEN {
        return Err(KeyError::Decryption);
    }
    let key = crate::kdf::derive(password, salt.as_slice(), rounds);
    match open(&key, nonce.as_slice(), ciphertext.as_slice()) {
        Ok(plaintext) => Ok(plaintext),
        Err(_) => Err(KeyError::Decryption),
    }
}

/// Opens `package` with `password` and the fixed number of derivation
/// rounds.
pub fn unwrap(package: &EncryptedKeyResponse, password: &[u8]) -> (r: Result<Vec<u8>, KeyError>)
    ensures
        match r {
            Ok(plaintext) => opened_package(package@, password@, PBKDF2_ITERATIONS) == Ok::<
                Seq<u8>,
                KeyError,
            >(plaintext@),
            Err(e) => opened_package(package@, password@, PBKDF2_ITERATIONS) == Err::<
                Seq<u8>,
                KeyError,
            >(e),
        },
        r matches Ok(plaintext) ==> encodable(plaintext@.len() as int),
{
    open_with(package, password, PBKDF2_ITERATIONS)
}

/// Opening is all or nothing. A plaintext comes out only where all three
/// fields are base64, the nonce has 12 bytes, and the cipher authenticates
/// the ciphertext under the key derived from the password and the stored
/// salt; the plaintext is then the one the cipher recovers. Every other
/// outcome is one of four failures, and carries no plaintext.
pub proof fn lemma_opening_is_all_or_nothing(package: PackageText, password: Seq<u8>, rounds: u32)
    ensures
        match opened_package(package, password, rounds) {
            Ok(plaintext) => {
                &&& base64_bytes(package.encrypted_data_base64) matches Some(ciphertext)
                &&& base64_bytes(package.salt_base64) matches Some(salt)
                &&& base64_bytes(package.nonce_base64) matches Some(nonce)
                &&& nonce.len() == NONCE_LEN
                &&& aes_256_gcm_opened(
                    pbkdf2_hmac_sha256(password, salt, rounds),
                    nonce,
                    ciphertext,
                ) == Some(plaintext)
            },
            Err(e) => {
                ||| e == KeyError::DecodeEncryptedData
                ||| e == KeyError::DecodeSalt
                ||| e == KeyError::DecodeNonce
                ||| e == KeyError::Decryption
            },
        },
{
}

/// A package that does not authenticate is refused. Where the three fields
/// decode to `ciphertext`, `salt` and `nonce`, and the nonce has the wrong
/// length or the cipher does not authenticate the ciphertext under the key
/// derived from `password` and `salt`, opening fails with `Decryption`.
/// This is what a wrong password and a changed ciphertext, salt or nonce
/// come to.
pub proof fn lemma_unauthenticated_package_is_refused(
    package: PackageText,
    password: Seq<u8>,
    rounds: u32,
    ciphertext: Seq<u8>,
    salt: Seq<u8>,
    nonce: Seq<u8>,
)
    requires
        base64_bytes(package.encrypted_data_base64) == Some(ciphertext),
        base64_bytes(package.salt_base64) == Some(salt),
        base64_bytes(package.nonce_base64) == Some(nonce),
        nonce.len() != NONCE_LEN || aes_256_gcm_opened(
            pbkdf2_hmac_sha256(password, salt, rounds),
            nonce,
            ciphertext,
        ) is None,
    ensures
        opened_package(package, password, rounds) == Err::<Seq<u8>, KeyError>(KeyError::Decryption),
{
}

/// A field that is not base64 is reported before anything is decrypted, and
/// the first such field, in the order ciphertext, salt, nonce, names the
/// failure.
pub proof fn lemma_malformed_field_is_reported(
    package: PackageText,
    password: Seq<u8>,
    rounds: u32,
)
    ensures
        opened_package(package, password, rounds) == Err::<Seq<u8>, KeyError>(
            KeyError::DecodeEncryptedData,
        ) <==> base64_bytes(package.encrypted_data_base64) is None,
        opened_package(package, password, rounds) == Err::<Seq<u8>, KeyError>(
            KeyError::DecodeSalt,
        ) <==> base64_bytes(package.encrypted_data_base64) is Some && base64_bytes(
            package.salt_base64,
        ) is None,
        opened_package(package, password, rounds) == Err::<Seq<u8>, KeyError>(
            KeyError::DecodeNonce,
        ) <==> base64_bytes(package.encrypted_data_base64) is Some && base64_bytes(
            package.salt_base64,
        ) is Some && base64_bytes(package.nonce_base64) is None,
{
}

} // verus!
