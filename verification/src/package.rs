//! The records that leave the library: keys and sealed packages, as text.

use vstd::prelude::*;

verus! {

/// A keypair in the clear, both halves as base64 text.
#[derive(Debug)]
pub struct KeypairResponse {
    pub public_key: String,
    pub private_key: String,
}

/// A private key sealed under a password. All three fields are base64 text.
#[derive(Debug, Clone)]
pub struct EncryptedKeyResponse {
    /// The ciphertext, with the authentication tag at its end.
    pub encrypted_data_base64: String,
    /// The salt from which the key was derived.
    pub salt_base64: String,
    /// The nonce under which the ciphertext was made.
    pub nonce_base64: String,
}

/// A fresh identity: the public key, and the private key sealed.
#[derive(Debug)]
pub struct GeneratedAndEncryptedKeys {
    pub public_key: String,
    pub encrypted_key_package: EncryptedKeyResponse,
}

/// What a [`KeypairResponse`] holds.
pub struct KeypairText {
    pub public_key: Seq<char>,
    pub private_key: Seq<char>,
}

/// What an [`EncryptedKeyResponse`] holds.
pub struct PackageText {
    pub encrypted_data_base64: Seq<char>,
    pub salt_base64: Seq<char>,
    pub nonce_base64: Seq<char>,
}

/// What a [`GeneratedAndEncryptedKeys`] holds.
pub struct GeneratedText {
    pub public_key: Seq<char>,
    pub encrypted_key_package: PackageText,
}

impl View for KeypairResponse {
    type V = KeypairText;

    open spec fn view(&self) -> KeypairText {
        KeypairText { public_key: self.public_key@, private_key: self.private_key@ }
    }
}

impl View for EncryptedKeyResponse {
    type V = PackageText;

    open spec fn view(&self) -> PackageText {
        PackageText {
            encrypted_data_base64: self.encrypted_data_base64@,
            salt_base64: self.salt_base64@,
            nonce_base64: self.nonce_base64@,
        }
    }
}

impl View for GeneratedAndEncryptedKeys {
    type V = GeneratedText;

    open spec fn view(&self) -> GeneratedText {
        GeneratedText {
            public_key: self.public_key@,
            encrypted_key_package: self.encrypted_key_package@,
        }
    }
}

} // verus!
