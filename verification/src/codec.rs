//! Base64 text for the binary material of a package.
//!
//! The encoding itself is the `base64` crate's standard engine (the standard
//! alphabet, with padding). Contracts speak of it through two names.

use base64::engine::general_purpose::STANDARD;
use base64::Engine;
use vstd::prelude::*;

verus! {

/// The text that the standard base64 engine writes for `bytes`.
pub uninterp spec fn base64_text(bytes: Seq<u8>) -> Seq<char>;

/// The bytes that the standard base64 engine reads from `text`, or `None`
/// where it rejects `text`.
pub uninterp spec fn base64_bytes(text: Seq<char>) -> Option<Seq<u8>>;

/// Why a text was rejected by the decoder.
#[verifier::external_type_specification]
#[verifier::external_body]
pub struct ExDecodeError(base64::DecodeError);

/// The most bytes that any text holds: three for every four bytes of the
/// longest text, rounded up.
pub open spec fn max_decoded_len() -> int {
    (usize::MAX / 2 + 3) / 4 * 3
}

/// The length of the text for `len` bytes: four characters for every three
/// bytes, the last group padded.
pub open spec fn encoded_len(len: int) -> int {
    len / 3 * 4 + if len % 3 > 0 {
        4int
    } else {
        0int
    }
}

/// The text for `len` bytes can be allocated: it is no longer than
/// `isize::MAX` bytes.
pub open spec fn encodable(len: int) -> bool {
    encoded_len(len) <= usize::MAX / 2
}

/// Whether the text for `len` bytes can be allocated.
pub fn is_encodable(len: usize) -> (b: bool)
    ensures
        b == encodable(len as int),
{
    if len > usize::MAX / 2 {
        false
    } else {
        let padding: usize = if len % 3 > 0 {
            4
        } else {
            0
        };
        len / 3 * 4 + padding <= usize::MAX / 2
    }
}

/// Trusted: `Engine::encode` of `base64::engine::general_purpose::STANDARD`.
///
/// Claims that the result is the engine's text for `bytes`, and that the
/// same engine decodes this text back to `bytes`. The call allocates the
/// whole text and panics where its length exceeds `isize::MAX`, so such
/// inputs are left out.
#[verifier::external_body]
pub(crate) fn encode(bytes: &[u8]) -> (text: String)
    requires
        encodable(bytes@.len() as int),
    ensures
        text@ == base64_text(bytes@),
        base64_bytes(text@) == Some(bytes@),
{
    STANDARD.encode(bytes)
}

/// Trusted: `Engine::decode` of `base64::engine::general_purpose::STANDARD`.
///
/// Claims that the result is the engine's reading of `text`, an error
/// exactly where the engine rejects it. The engine reads at most three
/// bytes for every four bytes of text, rounded up, and no text is longer
/// than `isize::MAX` bytes: that bounds what is read.
#[verifier::external_body]
pub(crate) fn decode(text: &str) -> (r: Result<Vec<u8>, base64::DecodeError>)
    ensures
        match r {
            Ok(bytes) => base64_bytes(text@) == Some(bytes@) && bytes@.len() <= max_decoded_len(),
            Err(_) => base64_bytes(text@) is None,
        },
{
    STANDARD.decode(text)
}

} // verus!
