//! What is sent to the server to register an identity or to log in.
//!
//! The library decides where a request goes and what it carries. Sending it
//! is the caller's part, and so is reading the answer, which is passed on
//! as it came.

use crate::codec::base64_text;
use crate::custodian::generate_and_encrypt_keypair;
use crate::envelope::opened_package;
use crate::error::KeyError;
use crate::identity::{ed25519_public_key, SEED_LEN};
use crate::kdf::PBKDF2_ITERATIONS;
use crate::package::EncryptedKeyResponse;
use vstd::prelude::*;
use vstd::string::StringExecFns;
use vstd::utf8::encode_utf8;

verus! {

/// The body of a registration request and the address it is posted to.
#[derive(Debug)]
pub struct RegistrationRequest {
    /// Where the request is posted.
    pub url: String,
    pub username: String,
    pub server_domain: String,
    /// The account password, for the server to authenticate the user.
    pub password: String,
    /// The public verification key, as base64 text.
    pub pubkey: String,
}

/// The body of a login request and the address it is posted to.
#[derive(Debug)]
pub struct LoginRequest {
    /// Where the request is posted.
    pub url: String,
    pub username: String,
    pub server_domain: String,
    /// The account password, for the server to authenticate the user.
    pub password: String,
}

/// A registration ready to be carried out: the package to store, and the
/// request to send.
#[derive(Debug)]
pub struct Registration {
    pub encrypted_key_package: EncryptedKeyResponse,
    pub request: RegistrationRequest,
}

/// What a [`RegistrationRequest`] holds.
pub struct RegistrationText {
    pub url: Seq<char>,
    pub username: Seq<char>,
    pub server_domain: Seq<char>,
    pub password: Seq<char>,
    pub pubkey: Seq<char>,
}

/// What a [`LoginRequest`] holds.
pub struct LoginText {
    pub url: Seq<char>,
    pub username: Seq<char>,
    pub server_domain: Seq<char>,
    pub password: Seq<char>,
}

impl View for RegistrationRequest {
    type V = RegistrationText;

    open spec fn view(&self) -> RegistrationText {
        RegistrationText {
            url: self.url@,
            username: self.username@,
            server_domain: self.server_domain@,
            password: self.password@,
            pubkey: self.pubkey@,
        }
    }
}

impl View for LoginRequest {
    type V = LoginText;

    open spec fn view(&self) -> LoginText {
        LoginText {
            url: self.url@,
            username: self.username@,
            server_domain: self.server_domain@,
            password: self.password@,
        }
    }
}

/// The address of the registration endpoint of `server`.
pub open spec fn register_url(server: Seq<char>) -> Seq<char> {
    "https://"@ + server + "/api/v1/register"@
}

/// The address of the login endpoint of `server`.
pub open spec fn login_url(server: Seq<char>) -> Seq<char> {
    "https://"@ + server + "/api/v1/login"@
}

/// The request that registers `username` with `server` under the public
/// key `public_key`.
pub fn registration_request(
    username: String,
    password: String,
    server: String,
    public_key: String,
) -> (request: RegistrationRequest)
    ensures
        request@ == (RegistrationText {
            url: register_url(server@),
            username: username@,
            server_domain: server@,
            password: password@,
            pubkey: public_key@,
        }),
{
    let url = String::from_str("https://").concat(server.as_str()).concat("/api/v1/register");
    RegistrationRequest { url, username, server_domain: server, password, pubkey: public_key }
}

/// The request that logs `username` in at `server`. It carries no key.
pub fn login(username: String, password: String, server: String) -> (request: LoginRequest)
    ensures
        request@ == (LoginText {
            url: login_url(server@),
            username: username@,
            server_domain: server@,
            password: password@,
        }),
{
    let url = String::from_str("https://").concat(server.as_str()).concat("/api/v1/login");
    LoginRequest { url, username, server_domain: server, password }
}

/// Prepares the registration of `username` with `server`: generates a fresh
/// identity, seals its private half under `password`, and builds the
/// request that carries the public half.
///
/// Always succeeds. The package opens with `password` to a 32-byte seed
/// whose verification key is the key in the request; the seed itself is in
/// neither.
pub fn register(username: String, password: String, server: String) -> (r: Result<
    Registration,
    KeyError,
>)
    ensures
        r matches Ok(registration) && {
            &&& registration.request@.url == register_url(server@)
            &&& registration.request@.username == username@
            &&& registration.request@.server_domain == server@
            &&& registration.request@.password == password@
            &&& opened_package(
                registration.encrypted_key_package@,
                encode_utf8(password@),
                PBKDF2_ITERATIONS,
            ) matches Ok(seed) && {
                &&& seed.len() == SEED_LEN
                &&& registration.request@.pubkey == base64_text(ed25519_public_key(seed))
            }
        },
{
    match generate_and_encrypt_keypair(password.clone()) {
        Ok(keys) => Ok(
            Registration {
                encrypted_key_package: keys.encrypted_key_package,
                request: registration_request(username, password, server, keys.public_key),
            },
        ),
        Err(e) => Err(e),
    }
}

} // verus!
