//! Creating an identity whose private half never leaves in the clear, and
//! revealing that half again to the holder of the password.

use crate::cipher::NONCE_LEN;
use crate::codec::{base64_text, encode};
use crate::envelope::{open_with, opened_package, seal_with, sealed_package, SALT_LEN};
use crate::error::KeyError;
use crate::identity::{ed25519_public_key, SigningIdentity, SEED_LEN};
use crate::kdf::PBKDF2_ITERATIONS;
use crate::package::{EncryptedKeyResponse, GeneratedAndEncryptedKeys, GeneratedText, PackageText};
use crate::random::random_bytes;
use vstd::prelude::*;
use vstd::utf8::encode_utf8;

verus! {

/// The public key of the seed `seed` as text, beside the package that seals
/// `seed` under `password` with the given salt and nonce.
pub open spec fn sealed_identity(
    seed: Seq<u8>,
    password: Seq<u8>,
    salt: Seq<u8>,
    nonce: Seq<u8>,
    rounds: u32,
) -> GeneratedText {
    GeneratedText {
        public_key: base64_text(ed25519_public_key(seed)),
        encrypted_key_package: sealed_package(seed, password, salt, nonce, rounds),
    }
}

/// What revealing the private key of `package` with `password` gives: the
/// opened plaintext as base64 text, or the failure of opening.
pub open spec fn revealed_key(package: PackageText, password: Seq<u8>, rounds: u32) -> Result<
    Seq<char>,
    KeyError,
> {
    match opened_package(package, password, rounds) {
        Ok(plaintext) => Ok(base64_text(plaintext)),
        Err(e) => Err(e),
    }
}

/// Seals the private half of `identity` under `password` with a given salt,
/// nonce and number of derivation rounds, and returns it beside the public
/// half.
///
/// The result is fixed by the arguments. The package opens, with the same
/// password and rounds, to the seed whose verification key is the returned
/// public key.
pub fn seal_identity(
    identity: &SigningIdentity,
    password: &[u8],
    salt: &[u8; 16],
    nonce: &[u8; 12],
    rounds: u32,
) -> (r: Result<GeneratedAndEncryptedKeys, KeyError>)
    ensures
        r matches Ok(keys) && {
            &&& keys@ == sealed_identity(identity.spec_seed(), password@, salt@, nonce@, rounds)
            &&& opened_package(keys@.encrypted_key_package, password@, rounds) == Ok::<
                Seq<u8>,
                KeyError,
            >(identity.spec_seed())
            &&& revealed_key(keys@.encrypted_key_package, password@, rounds) == Ok::<
                Seq<char>,
                KeyError,
            >(base64_text(identity.spec_seed()))
        },
{
    proof {
        use_type_invariant(identity);
    }
    match seal_with(identity.seed().as_slice(), password, salt, nonce, rounds) {
        Ok(package) => Ok(
            GeneratedAndEncryptedKeys {
                public_key: encode(identity.public_key().as_slice()),
                encrypted_key_package: package,
            },
        ),
        Err(e) => Err(e),
    }
}

/// Generates a fresh identity and seals its private half under `password`.
///
/// Always succeeds. The package opens with `password` to a 32-byte seed,
/// and the returned public key is the text of that seed's verification
/// key; the keys are those that some seed, salt and nonce give.
pub fn generate_and_encrypt_keypair(password: String) -> (r: Result<
    GeneratedAndEncryptedKeys,
    KeyError,
>)
    ensures
        r matches Ok(keys) && {
            &&& opened_package(
                keys@.encrypted_key_package,
                encode_utf8(password@),
                PBKDF2_ITERATIONS,
            ) matches Ok(seed) && {
                &&& seed.len() == SEED_LEN
                &&& keys@.public_key == base64_text(ed25519_public_key(seed))
                &&& revealed_key(
                    keys@.encrypted_key_package,
                    encode_utf8(password@),
                    PBKDF2_ITERATIONS,
                ) == Ok::<Seq<char>, KeyError>(base64_text(seed))
            }
            &&& exists|seed: Seq<u8>, salt: Seq<u8>, nonce: Seq<u8>|
                {
                    &&& seed.len() == SEED_LEN
                    &&& salt.len() == SALT_LEN
                    &&& nonce.len() == NONCE_LEN
                    &&& keys@ == #[trigger] sealed_identity(
                        seed,
                        encode_utf8(password@),
                        salt,
                        nonce,
                        PBKDF2_ITERATIONS,
                    )
                }
        },
{
    let identity = SigningIdentity::generate();
    let salt: [u8; 16] = random_bytes::<16>();
    let nonce: [u8; 12] = random_bytes::<12>();
    seal_identity(&identity, password.as_str().as_bytes(), &salt, &nonce, PBKDF2_ITERATIONS)
}

/// Opens `package` with `password` and a given number of derivation rounds,
/// and returns the private key as base64 text.
pub fn reveal_with(package: &EncryptedKeyResponse, password: &[u8], rounds: u32) -> (r: Result<
    String,
    KeyError,
>)
    ensures
        match r {
            Ok(text) => revealed_key(package@, password@, rounds) == Ok::<Seq<char>, KeyError>(
                text@,
            ),
            Err(e) => revealed_key(package@, password@, rounds) == Err::<Seq<char>, KeyError>(e),
        },
{
    match open_with(package, password, rounds) {
        Ok(plaintext) => Ok(encode(plaintext.as_slice())),
        Err(e) => Err(e),
    }
}

/// Opens the package with `password` and returns the private key as base64
/// text.
///
/// Fails with the decode failure of the first field that is not base64, in
/// the order ciphertext, salt, nonce, and with `Decryption` where the
/// package does not authenticate under the key derived from `password`.
pub fn decrypt_private_key(encrypted_response: EncryptedKeyResponse, password: String) -> (r:
    Result<String, KeyError>)
    ensures
        match r {
            Ok(text) => revealed_key(
                encrypted_response@,
                encode_utf8(password@),
                PBKDF2_ITERATIONS,
            ) == Ok::<Seq<char>, KeyError>(text@),
            Err(e) => revealed_key(
                encrypted_response@,
                encode_utf8(password@),
                PBKDF2_ITERATIONS,
            ) == Err::<Seq<char>, KeyError>(e),
        },
{
    reveal_with(&encrypted_response, password.as_str().as_bytes(), PBKDF2_ITERATIONS)
}

} // verus!
