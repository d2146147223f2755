//! The closed set of failures that key custody can report.

use vstd::prelude::*;
use vstd::string::StringExecFns;

verus! {

/// The broad class a failure belongs to.
#[derive(Clone, Copy, Debug, PartialEq, Eq, Structural)]
pub enum ErrorKind {
    /// A field of a package is not valid base64.
    Decode,
    /// The cipher refused to seal the plaintext.
    Encryption,
    /// The password is wrong or the package is corrupted.
    Decryption,
    /// The key file or its directory could not be reached.
    Io,
    /// The key file does not hold a package.
    Parse,
    /// The server could not be reached or its answer could not be read.
    Network,
}

/// A failure of one step of key custody.
#[derive(Clone, Copy, Debug, PartialEq, Eq, Structural)]
pub enum KeyError {
    /// The ciphertext field is not valid base64.
    DecodeEncryptedData,
    /// The salt field is not valid base64.
    DecodeSalt,
    /// The nonce field is not valid base64.
    DecodeNonce,
    /// The cipher refused to seal the plaintext.
    Encryption,
    /// Authentication failed: wrong password or corrupted package.
    Decryption,
    /// The application has no configuration directory.
    ConfigDirectory,
    /// The package could not be turned into text.
    Serialize,
    /// The directory of the key file could not be created.
    CreateDirectory,
    /// The key file could not be written.
    WriteFile,
    /// The key file could not be read.
    ReadFile,
    /// The key file does not hold a package.
    ParseFile,
    /// The registration request did not reach the server.
    SendRegistration,
    /// The login request did not reach the server.
    SendLogin,
    /// The server's answer could not be read as text.
    ReadResponse,
}

impl KeyError {
    /// The class of this failure.
    pub open spec fn spec_kind(self) -> ErrorKind {
        match self {
            KeyError::DecodeEncryptedData | KeyError::DecodeSalt | KeyError::DecodeNonce =>
                ErrorKind::Decode,
            KeyError::Encryption => ErrorKind::Encryption,
            KeyError::Decryption => ErrorKind::Decryption,
            KeyError::ConfigDirectory
            | KeyError::Serialize
            | KeyError::CreateDirectory
            | KeyError::WriteFile
            | KeyError::ReadFile => ErrorKind::Io,
            KeyError::ParseFile => ErrorKind::Parse,
            KeyError::SendRegistration | KeyError::SendLogin | KeyError::ReadResponse =>
                ErrorKind::Network,
        }
    }

    /// The text shown to the user for this failure.
    pub open spec fn spec_message(self) -> Seq<char> {
        match self {
            KeyError::DecodeEncryptedData => "Failed to decode encrypted data."@,
            KeyError::DecodeSalt => "Failed to decode salt."@,
            KeyError::DecodeNonce => "Failed to decode nonce."@,
            KeyError::Encryption => "Encryption failed"@,
            KeyError::Decryption => "Decryption failed. Please check your password."@,
            KeyError::ConfigDirectory => "Failed to find application config directory."@,
            KeyError::Serialize => "Failed to serialize key data."@,
            KeyError::CreateDirectory => "Failed to create key storage directory."@,
            KeyError::WriteFile => "Failed to write key file to disk."@,
            KeyError::ReadFile => "Failed to read key file."@,
            KeyError::ParseFile => "Failed to parse key file."@,
            KeyError::SendRegistration => "Failed to send registration request to the server."@,
            KeyError::SendLogin => "Failed to send login request to the server."@,
            KeyError::ReadResponse => "Failed to read response from the server."@,
        }
    }

    /// The class of this failure.
    #[verifier::when_used_as_spec(spec_kind)]
    pub fn kind(self) -> (kind: ErrorKind)
        ensures
            kind == self.spec_kind(),
    {
        match self {
            KeyError::DecodeEncryptedData | KeyError::DecodeSalt | KeyError::DecodeNonce => {
                ErrorKind::Decode
            },
            KeyError::Encryption => ErrorKind::Encryption,
            KeyError::Decryption => ErrorKind::Decryption,
            KeyError::ConfigDirectory
            | KeyError::Serialize
            | KeyError::CreateDirectory
            | KeyError::WriteFile
            | KeyError::ReadFile => ErrorKind::Io,
            KeyError::ParseFile => ErrorKind::Parse,
            KeyError::SendRegistration | KeyError::SendLogin | KeyError::ReadResponse => {
                ErrorKind::Network
            },
        }
    }

    /// The text shown to the user for this failure.
    pub fn message(self) -> (text: String)
        ensures
            text@ == self.spec_message(),
    {
        let text = match self {
            KeyError::DecodeEncryptedData => "Failed to decode encrypted data.",
            KeyError::DecodeSalt => "Failed to decode salt.",
            KeyError::DecodeNonce => "Failed to decode nonce.",
            KeyError::Encryption => "Encryption failed",
            KeyError::Decryption => "Decryption failed. Please check your password.",
            KeyError::ConfigDirectory => "Failed to find application config directory.",
            KeyError::Serialize => "Failed to serialize key data.",
            KeyError::CreateDirectory => "Failed to create key storage directory.",
            KeyError::WriteFile => "Failed to write key file to disk.",
            KeyError::ReadFile => "Failed to read key file.",
            KeyError::ParseFile => "Failed to parse key file.",
            KeyError::SendRegistration => "Failed to send registration request to the server.",
            KeyError::SendLogin => "Failed to send login request to the server.",
            KeyError::ReadResponse => "Failed to read response from the server.",
        };
        String::from_str(text)
    }
}

} // verus!
