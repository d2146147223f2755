//! Client-side custody of a signing identity.
//!
//! A fresh Ed25519 identity is generated, its private seed is sealed under a
//! key derived from the user's password, and the sealed package is what gets
//! stored and sent around. Every contract in this crate is stated over byte
//! and character sequences; the cryptographic primitives themselves are
//! called from the crates that implement them and appear in contracts only
//! by name.

pub mod account;
pub mod cipher;
pub mod codec;
pub mod custodian;
pub mod envelope;
pub mod error;
pub mod identity;
pub mod kdf;
pub mod package;
pub mod random;
pub mod store;
pub mod version;

pub use codec::{base64_bytes, base64_text};
pub use error::{ErrorKind, KeyError};
pub use package::{EncryptedKeyResponse, GeneratedAndEncryptedKeys, KeypairResponse};
