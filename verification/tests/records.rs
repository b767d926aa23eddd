//! Records, the words for errors, and settings.

use vault_service::codec::{Base64Error, HexError};
use vault_service::config::{AppState, Config};
use vault_service::crypto::ProtectedData;
use vault_service::error::VaultError;
use vault_service::secret::{SecretKey, SecretText};
use vault_service::text::{push_decimal, to_array};

fn sample() -> ProtectedData {
    ProtectedData::from_raw(
        &[0, 1, 2, 3, 4, 5, 6, 7, 8, 9, 10, 11, 0x7F, 0x80, 0xFE, 0xFF],
        &[0xFF; 12],
        &[0; 12],
        b"foobar".to_vec(),
        b"fooba".to_vec(),
    )
}

fn failure(data: &ProtectedData) -> VaultError {
    match data.to_raw() {
        Ok(_) => panic!("the record was read"),
        Err(e) => e,
    }
}

#[test]
fn fields_are_written_in_their_encodings() {
    let data = sample();
    assert_eq!(data.salt, "000102030405060708090a0b7f80feff");
    assert_eq!(data.nonce, "////////////////");
    assert_eq!(data.dek_nonce, "AAAAAAAAAAAAAAAA");
    assert_eq!(data.encrypted_dek, "Zm9vYmFy");
    assert_eq!(data.ciphertext, "Zm9vYmE=");
    assert_eq!(data.version, 1);
    let short = ProtectedData::from_raw(&[0; 16], &[0; 12], &[0; 12], b"foob".to_vec(), vec![]);
    assert_eq!(short.encrypted_dek, "Zm9vYg==");
    assert_eq!(short.ciphertext, "");
}

#[test]
fn reading_undoes_writing() {
    let raw = sample().to_raw().ok().unwrap();
    assert_eq!(raw.salt, [0, 1, 2, 3, 4, 5, 6, 7, 8, 9, 10, 11, 0x7F, 0x80, 0xFE, 0xFF]);
    assert_eq!(raw.nonce, [0xFF; 12]);
    assert_eq!(raw.dek_nonce, [0; 12]);
    assert_eq!(raw.encrypted_dek, b"foobar");
    assert_eq!(raw.ciphertext, b"fooba");
}

#[test]
fn every_byte_survives() {
    let all: Vec<u8> = (0..=255).collect();
    let data = ProtectedData::from_raw(&[9; 16], &[8; 12], &[7; 12], all.clone(), all[1..].to_vec());
    let raw = data.to_raw().ok().unwrap();
    assert_eq!(raw.encrypted_dek, all);
    assert_eq!(raw.ciphertext, all[1..]);
}

#[test]
fn bad_salts_are_refused() {
    let mut data = sample();
    data.salt = "abc".to_string();
    let e = failure(&data);
    assert!(matches!(e, VaultError::Hex(HexError::OddLength)));
    assert_eq!(e.message(), "Hex decode error: Odd number of digits");

    data.salt = "00zg".to_string();
    let e = failure(&data);
    assert!(matches!(
        e,
        VaultError::Hex(HexError::InvalidHexCharacter { c: 'z', index: 2 })
    ));
    assert_eq!(e.message(), "Hex decode error: Invalid character 'z' at position 2");

    data.salt = "é".to_string();
    assert!(matches!(
        failure(&data),
        VaultError::Hex(HexError::InvalidHexCharacter { c: 'Ã', index: 0 })
    ));

    data.salt = "0\n".to_string();
    assert_eq!(
        failure(&data).message(),
        "Hex decode error: Invalid character '\\n' at position 1"
    );

    data.salt = "00".repeat(15);
    let e = failure(&data);
    assert!(matches!(e, VaultError::InvalidLength { field: "salt", expected: 16, got: 15 }));
    assert_eq!(e.message(), "Invalid data length for field 'salt': expected 16, got 15");

    assert_eq!(
        VaultError::Hex(HexError::InvalidStringLength).message(),
        "Hex decode error: Invalid string length"
    );
}

#[test]
fn bad_base64_is_refused() {
    let mut data = sample();
    data.nonce = "AB!D".to_string();
    let e = failure(&data);
    assert!(matches!(e, VaultError::Base64(Base64Error::InvalidByte(2, b'!'))));
    assert_eq!(e.message(), "Base64 decode error: Invalid symbol 33, offset 2.");

    let mut data = sample();
    data.dek_nonce = "A".to_string();
    let e = failure(&data);
    assert!(matches!(e, VaultError::Base64(Base64Error::InvalidLength(1))));
    assert_eq!(e.message(), "Base64 decode error: Invalid input length: 1");

    let mut data = sample();
    data.encrypted_dek = "Zh==".to_string();
    let e = failure(&data);
    assert!(matches!(e, VaultError::Base64(Base64Error::InvalidLastSymbol(1, b'h'))));
    assert_eq!(e.message(), "Base64 decode error: Invalid last symbol 104, offset 1.");

    let mut data = sample();
    data.ciphertext = "Zm8".to_string();
    let e = failure(&data);
    assert!(matches!(e, VaultError::Base64(Base64Error::InvalidPadding)));
    assert_eq!(e.message(), "Base64 decode error: Invalid padding");
}

#[test]
fn noncanonical_base64_is_refused() {
    for text in ["Zm9vYmF", "Zm9vYmE", "Zm9vYmF=", "Zm9v====", "Zm9v YmFy", "Zm9vYmFy\n", "===="] {
        let mut data = sample();
        data.ciphertext = text.to_string();
        assert!(matches!(failure(&data), VaultError::Base64(_)), "{}", text);
    }
}

#[test]
fn nonces_have_twelve_bytes() {
    let mut data = sample();
    data.nonce = "AAAA".to_string();
    let e = failure(&data);
    assert!(matches!(e, VaultError::InvalidLength { field: "nonce", expected: 12, got: 3 }));
    assert_eq!(e.message(), "Invalid data length for field 'nonce': expected 12, got 3");

    let mut data = sample();
    data.dek_nonce = "".to_string();
    let e = failure(&data);
    assert!(matches!(e, VaultError::InvalidLength { field: "dek_nonce", expected: 12, got: 0 }));
    assert_eq!(e.message(), "Invalid data length for field 'dek_nonce': expected 12, got 0");
}

#[test]
fn fields_are_decoded_before_they_are_measured() {
    let mut data = sample();
    data.salt = "00".to_string();
    data.ciphertext = "*".to_string();
    assert!(matches!(failure(&data), VaultError::Base64(Base64Error::InvalidByte(0, b'*'))));
    data.salt = "0".to_string();
    assert!(matches!(failure(&data), VaultError::Hex(HexError::OddLength)));
    data.ciphertext = "".to_string();
    data.salt = "00".to_string();
    data.nonce = "".to_string();
    assert!(matches!(failure(&data), VaultError::InvalidLength { field: "salt", .. }));
}

#[test]
fn errors_have_words() {
    assert_eq!(
        VaultError::KeyDerivation("salt is too short".to_string()).message(),
        "Argon2 key derivation failed: salt is too short"
    );
    assert_eq!(VaultError::Encryption.message(), "Encryption failed");
    assert_eq!(
        VaultError::Decryption.message(),
        "Decryption failed: wrong password or corrupted data"
    );
    assert_eq!(VaultError::InvalidUtf8.message(), "Invalid UTF-8 in decrypted plaintext");
}

#[test]
fn numbers_are_written_in_decimal() {
    for n in [0usize, 7, 9, 10, 99, 100, 1234567890, usize::MAX] {
        let mut s = "n=".to_string();
        push_decimal(&mut s, n);
        assert_eq!(s, format!("n={n}"));
    }
}

#[test]
fn arrays_take_their_length_exactly() {
    assert_eq!(to_array::<3>(&[1, 2, 3]), Some([1, 2, 3]));
    assert_eq!(to_array::<3>(&[1, 2]), None);
    assert_eq!(to_array::<3>(&[1, 2, 3, 4]), None);
    assert_eq!(to_array::<0>(&[]), Some([]));
}

#[test]
fn short_master_passwords_are_refused() {
    assert!(Config::from_values("1234567890123456789".to_string(), None, None).is_none());
    // Twenty bytes, ten characters.
    let config = Config::from_values("éééééééééé".to_string(), None, None).unwrap();
    assert_eq!(config.master_password.as_str(), "éééééééééé");
}

#[test]
fn settings_have_defaults() {
    let config = Config::from_values("12345678901234567890".to_string(), None, None).unwrap();
    assert_eq!(config.master_password.as_str(), "12345678901234567890");
    assert_eq!(config.bind_addr, "0.0.0.0:8080");
    assert_eq!(config.log_level, "vault_service=info,tower_http=warn");

    let config = Config::from_values(
        "12345678901234567890".to_string(),
        Some("127.0.0.1:1".to_string()),
        Some("debug".to_string()),
    )
    .unwrap();
    assert_eq!(config.bind_addr, "127.0.0.1:1");
    assert_eq!(config.log_level, "debug");
}

#[test]
fn state_shares_the_password() {
    let state = AppState::new(SecretText::new("shared".to_string()));
    let other = state.clone();
    drop(state);
    assert_eq!(other.master_password.as_str(), "shared");
}

#[test]
fn keys_start_out_empty() {
    assert_eq!(SecretKey::zeroed().bytes, [0u8; 32]);
}
