use base64::engine::general_purpose::STANDARD;
use base64::Engine;
use key_custody::envelope::{open_with, seal_with, unwrap, wrap};
use key_custody::{EncryptedKeyResponse, KeyError};

const SALT: [u8; 16] = [0, 1, 2, 3, 4, 5, 6, 7, 8, 9, 10, 11, 12, 13, 14, 15];
const NONCE: [u8; 12] = [100, 101, 102, 103, 104, 105, 106, 107, 108, 109, 110, 111];

fn package(data: &str, salt: &str, nonce: &str) -> EncryptedKeyResponse {
    EncryptedKeyResponse {
        encrypted_data_base64: data.to_string(),
        salt_base64: salt.to_string(),
        nonce_base64: nonce.to_string(),
    }
}

fn flipped(bytes: &[u8], bit: usize) -> Vec<u8> {
    let mut changed = bytes.to_vec();
    changed[bit / 8] ^= 1 << (bit % 8);
    changed
}

#[test]
fn wrap_then_unwrap_returns_the_plaintext() {
    let package = wrap(b"thirty-two bytes of key material", b"correct-horse").unwrap();
    let plaintext = unwrap(&package, b"correct-horse").unwrap();
    assert_eq!(plaintext, b"thirty-two bytes of key material".to_vec());
}

#[test]
fn unwrap_with_another_password_is_a_decryption_failure() {
    let package = wrap(b"secret seed", b"correct-horse").unwrap();
    assert_eq!(unwrap(&package, b"wrong-password"), Err(KeyError::Decryption));
}

#[test]
fn wrapped_fields_have_the_lengths_of_salt_nonce_and_tagged_ciphertext() {
    let package = wrap(b"0123456789", b"pw").unwrap();
    assert_eq!(STANDARD.decode(&package.salt_base64).unwrap().len(), 16);
    assert_eq!(STANDARD.decode(&package.nonce_base64).unwrap().len(), 12);
    assert_eq!(STANDARD.decode(&package.encrypted_data_base64).unwrap().len(), 10 + 16);
}

#[test]
fn successive_wraps_draw_fresh_salts_and_nonces() {
    let first = wrap(b"same plaintext", b"same password").unwrap();
    let second = wrap(b"same plaintext", b"same password").unwrap();
    let third = wrap(b"same plaintext", b"same password").unwrap();
    let pairs = [
        (first.salt_base64, first.nonce_base64),
        (second.salt_base64, second.nonce_base64),
        (third.salt_base64, third.nonce_base64),
    ];
    assert_ne!(pairs[0], pairs[1]);
    assert_ne!(pairs[0], pairs[2]);
    assert_ne!(pairs[1], pairs[2]);
    assert_ne!(first.encrypted_data_base64, second.encrypted_data_base64);
}

#[test]
fn seal_with_gives_the_known_package() {
    let package = seal_with(b"abc", b"pw", &SALT, &NONCE, 2).unwrap();
    assert_eq!(package.encrypted_data_base64, "GsCWWp+Olgk2gQDQwDKIsMChCw==");
    assert_eq!(package.salt_base64, "AAECAwQFBgcICQoLDA0ODw==");
    assert_eq!(package.nonce_base64, "ZGVmZ2hpamtsbW5v");
}

#[test]
fn seal_with_is_a_function_of_its_arguments() {
    let first = seal_with(b"abc", b"pw", &SALT, &NONCE, 7).unwrap();
    let second = seal_with(b"abc", b"pw", &SALT, &NONCE, 7).unwrap();
    assert_eq!(first.encrypted_data_base64, second.encrypted_data_base64);
    assert_eq!(first.salt_base64, second.salt_base64);
    assert_eq!(first.nonce_base64, second.nonce_base64);
    let other_rounds = seal_with(b"abc", b"pw", &SALT, &NONCE, 8).unwrap();
    assert_ne!(first.encrypted_data_base64, other_rounds.encrypted_data_base64);
}

#[test]
fn seal_with_the_fixed_round_count_gives_the_known_ciphertext() {
    let seed: [u8; 32] = [
        0x9d, 0x61, 0xb1, 0x9d, 0xef, 0xfd, 0x5a, 0x60, 0xba, 0x84, 0x4a, 0xf4, 0x92, 0xec, 0x2c,
        0xc4, 0x44, 0x49, 0xc5, 0x69, 0x7b, 0x32, 0x69, 0x19, 0x70, 0x3b, 0xac, 0x03, 0x1c, 0xae,
        0x7f, 0x60,
    ];
    let package =
        seal_with(&seed, b"correct-horse", &SALT, &NONCE, key_custody::kdf::PBKDF2_ITERATIONS)
            .unwrap();
    assert_eq!(
        package.encrypted_data_base64,
        "vbjE6K1VtTv+5D0Z0s3TpH/pl9Swx+BrXRwInl6/BygOCBLfiXGj64lQT8wAxAhr"
    );
    assert_eq!(unwrap(&package, b"correct-horse"), Ok(seed.to_vec()));
}

#[test]
fn the_fixed_round_count_is_six_hundred_thousand() {
    assert_eq!(key_custody::kdf::PBKDF2_ITERATIONS, 600_000);
}

#[test]
fn open_with_reads_a_package_made_elsewhere() {
    let made_elsewhere =
        package("GsCWWp+Olgk2gQDQwDKIsMChCw==", "AAECAwQFBgcICQoLDA0ODw==", "ZGVmZ2hpamtsbW5v");
    assert_eq!(open_with(&made_elsewhere, b"pw", 2), Ok(b"abc".to_vec()));
}

#[test]
fn open_with_needs_the_round_count_of_sealing() {
    let package = seal_with(b"abc", b"pw", &SALT, &NONCE, 2).unwrap();
    assert_eq!(open_with(&package, b"pw", 3), Err(KeyError::Decryption));
}

#[test]
fn zero_rounds_derive_what_one_round_derives() {
    let package = seal_with(b"abc", b"pw", &SALT, &NONCE, 0).unwrap();
    assert_eq!(open_with(&package, b"pw", 1), Ok(b"abc".to_vec()));
}

#[test]
fn empty_plaintext_and_password_round_trip() {
    let package = seal_with(b"", b"", &[0u8; 16], &[0u8; 12], 1).unwrap();
    assert_eq!(package.encrypted_data_base64, "pN4pSHwVEECK3DqVyqyPJg==");
    assert_eq!(package.salt_base64, "AAAAAAAAAAAAAAAAAAAAAA==");
    assert_eq!(package.nonce_base64, "AAAAAAAAAAAAAAAA");
    assert_eq!(open_with(&package, b"", 1), Ok(Vec::new()));
}

#[test]
fn password_bytes_need_not_be_ascii() {
    let package = seal_with(b"k", "pässwörd".as_bytes(), &SALT, &NONCE, 3).unwrap();
    assert_eq!(package.encrypted_data_base64, "StISaheGJ43WGb4iDO2bmuY=");
    assert_eq!(open_with(&package, "pässwörd".as_bytes(), 3), Ok(b"k".to_vec()));
    assert_eq!(open_with(&package, b"passwoerd", 3), Err(KeyError::Decryption));
}

#[test]
fn round_trip_holds_for_many_plaintexts_and_passwords() {
    for len in 0..70usize {
        let plaintext: Vec<u8> = (0..len).map(|i| (i * 7 + len) as u8).collect();
        let password: Vec<u8> = (0..(len % 9)).map(|i| (i + 33) as u8).collect();
        let salt = [len as u8; 16];
        let nonce = [(len + 1) as u8; 12];
        let package = seal_with(&plaintext, &password, &salt, &nonce, 3).unwrap();
        assert_eq!(open_with(&package, &password, 3), Ok(plaintext));
    }
}

#[test]
fn other_passwords_are_refused() {
    let package = seal_with(b"seed", b"correct-horse", &SALT, &NONCE, 3).unwrap();
    for other in [&b""[..], b"correct-hors", b"correct-horse ", b"Correct-horse", b"wrong-password"]
    {
        assert_eq!(open_with(&package, other, 3), Err(KeyError::Decryption));
    }
}

#[test]
fn a_password_padded_with_a_zero_byte_derives_the_same_key() {
    let package = seal_with(b"seed", b"a", &SALT, &NONCE, 5).unwrap();
    assert_eq!(open_with(&package, b"a\0", 5), Ok(b"seed".to_vec()));
}

#[test]
fn any_flipped_bit_of_the_ciphertext_is_a_decryption_failure() {
    let sealed = seal_with(b"0123456789abcdef0123456789abcdef", b"pw", &SALT, &NONCE, 2).unwrap();
    let ciphertext = STANDARD.decode(&sealed.encrypted_data_base64).unwrap();
    assert_eq!(ciphertext.len(), 48);
    for bit in 0..ciphertext.len() * 8 {
        let tampered = package(
            &STANDARD.encode(flipped(&ciphertext, bit)),
            &sealed.salt_base64,
            &sealed.nonce_base64,
        );
        assert_eq!(open_with(&tampered, b"pw", 2), Err(KeyError::Decryption));
    }
}

#[test]
fn any_flipped_bit_of_the_salt_is_a_decryption_failure() {
    let sealed = seal_with(b"0123456789abcdef0123456789abcdef", b"pw", &SALT, &NONCE, 2).unwrap();
    for bit in 0..SALT.len() * 8 {
        let tampered = package(
            &sealed.encrypted_data_base64,
            &STANDARD.encode(flipped(&SALT, bit)),
            &sealed.nonce_base64,
        );
        assert_eq!(open_with(&tampered, b"pw", 2), Err(KeyError::Decryption));
    }
}

#[test]
fn any_flipped_bit_of_the_nonce_is_a_decryption_failure() {
    let sealed = seal_with(b"0123456789abcdef0123456789abcdef", b"pw", &SALT, &NONCE, 2).unwrap();
    for bit in 0..NONCE.len() * 8 {
        let tampered = package(
            &sealed.encrypted_data_base64,
            &sealed.salt_base64,
            &STANDARD.encode(flipped(&NONCE, bit)),
        );
        assert_eq!(open_with(&tampered, b"pw", 2), Err(KeyError::Decryption));
    }
}

#[test]
fn a_tampered_stored_package_fails_at_full_strength() {
    let sealed = wrap(b"seed", b"correct-horse").unwrap();
    let ciphertext = STANDARD.decode(&sealed.encrypted_data_base64).unwrap();
    let tampered = package(
        &STANDARD.encode(flipped(&ciphertext, 0)),
        &sealed.salt_base64,
        &sealed.nonce_base64,
    );
    assert_eq!(unwrap(&tampered, b"correct-horse"), Err(KeyError::Decryption));
}

#[test]
fn a_truncated_ciphertext_is_a_decryption_failure() {
    let sealed = seal_with(b"abc", b"pw", &SALT, &NONCE, 2).unwrap();
    let ciphertext = STANDARD.decode(&sealed.encrypted_data_base64).unwrap();
    for keep in 0..ciphertext.len() {
        let shortened = package(
            &STANDARD.encode(&ciphertext[..keep]),
            &sealed.salt_base64,
            &sealed.nonce_base64,
        );
        assert_eq!(open_with(&shortened, b"pw", 2), Err(KeyError::Decryption));
    }
}

#[test]
fn a_nonce_of_another_length_is_a_decryption_failure() {
    let sealed = seal_with(b"abc", b"pw", &SALT, &NONCE, 2).unwrap();
    for len in [0usize, 1, 11, 13, 16, 24] {
        let odd = package(
            &sealed.encrypted_data_base64,
            &sealed.salt_base64,
            &STANDARD.encode(vec![100u8; len]),
        );
        assert_eq!(open_with(&odd, b"pw", 2), Err(KeyError::Decryption));
    }
}

#[test]
fn a_salt_of_another_length_is_a_decryption_failure() {
    let sealed = seal_with(b"abc", b"pw", &SALT, &NONCE, 2).unwrap();
    let odd = package(&sealed.encrypted_data_base64, &STANDARD.encode([1u8; 8]), &sealed.nonce_base64);
    assert_eq!(open_with(&odd, b"pw", 2), Err(KeyError::Decryption));
}

#[test]
fn malformed_ciphertext_text_is_reported_first() {
    let bad = package("not base64!", "also not base64!", "nor this!");
    assert_eq!(open_with(&bad, b"pw", 2), Err(KeyError::DecodeEncryptedData));
    assert_eq!(unwrap(&bad, b"pw"), Err(KeyError::DecodeEncryptedData));
}

#[test]
fn malformed_salt_text_is_reported_before_the_nonce() {
    let bad = package("GsCWWp+Olgk2gQDQwDKIsMChCw==", "also not base64!", "nor this!");
    assert_eq!(open_with(&bad, b"pw", 2), Err(KeyError::DecodeSalt));
}

#[test]
fn malformed_nonce_text_is_reported() {
    let bad = package("GsCWWp+Olgk2gQDQwDKIsMChCw==", "AAECAwQFBgcICQoLDA0ODw==", "nor this!");
    assert_eq!(open_with(&bad, b"pw", 2), Err(KeyError::DecodeNonce));
}

#[test]
fn missing_padding_is_malformed_text() {
    let bad = package("GsCWWp+Olgk2gQDQwDKIsMChCw", "AAECAwQFBgcICQoLDA0ODw==", "ZGVmZ2hpamtsbW5v");
    assert_eq!(open_with(&bad, b"pw", 2), Err(KeyError::DecodeEncryptedData));
}

#[test]
fn empty_fields_decode_but_do_not_authenticate() {
    let empty = package("", "", "");
    assert_eq!(open_with(&empty, b"pw", 2), Err(KeyError::Decryption));
}

#[test]
fn derive_gives_the_published_keys() {
    assert_eq!(
        key_custody::kdf::derive(b"password", b"salt", 1),
        [
            0x12, 0x0f, 0xb6, 0xcf, 0xfc, 0xf8, 0xb3, 0x2c, 0x43, 0xe7, 0x22, 0x52, 0x56, 0xc4,
            0xf8, 0x37, 0xa8, 0x65, 0x48, 0xc9, 0x2c, 0xcc, 0x35, 0x48, 0x08, 0x05, 0x98, 0x7c,
            0xb7, 0x0b, 0xe1, 0x7b,
        ]
    );
    assert_eq!(
        key_custody::kdf::derive(b"password", b"salt", 4096),
        [
            0xc5, 0xe4, 0x78, 0xd5, 0x92, 0x88, 0xc8, 0x41, 0xaa, 0x53, 0x0d, 0xb6, 0x84, 0x5c,
            0x4c, 0x8d, 0x96, 0x28, 0x93, 0xa0, 0x01, 0xce, 0x4e, 0x11, 0xa4, 0x96, 0x38, 0x73,
            0xaa, 0x98, 0x13, 0x4a,
        ]
    );
}

#[test]
fn derive_depends_on_password_salt_and_rounds() {
    let key = key_custody::kdf::derive(b"pw", &SALT, 2);
    assert_eq!(
        key,
        [
            0xca, 0xab, 0xf3, 0xc2, 0x1a, 0xd7, 0x11, 0x27, 0x58, 0x0f, 0xfd, 0xa1, 0x8b, 0x97,
            0xf0, 0xdc, 0xde, 0x5d, 0x38, 0x0e, 0x4c, 0xe1, 0xd9, 0xca, 0xfb, 0x5a, 0xdf, 0xc0,
            0xe2, 0xf5, 0xfa, 0x03,
        ]
    );
    assert_eq!(key, key_custody::kdf::derive(b"pw", &SALT, 2));
    assert_ne!(key, key_custody::kdf::derive(b"pW", &SALT, 2));
    assert_ne!(key, key_custody::kdf::derive(b"pw", &[0u8; 16], 2));
    assert_ne!(key, key_custody::kdf::derive(b"pw", &SALT, 3));
}

#[test]
fn text_of_a_short_input_can_be_allocated() {
    assert!(key_custody::codec::is_encodable(0));
    assert!(key_custody::codec::is_encodable(48));
}

#[test]
fn text_longer_than_the_largest_allocation_cannot() {
    let most = usize::MAX / 2 / 4 * 3;
    assert!(key_custody::codec::is_encodable(most));
    assert!(!key_custody::codec::is_encodable(most + 1));
    assert!(!key_custody::codec::is_encodable(usize::MAX / 2));
    assert!(!key_custody::codec::is_encodable(usize::MAX));
}
