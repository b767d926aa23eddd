//! Sealing and opening.

use aes_gcm::aead::{Aead, KeyInit, Payload};
use base64::engine::general_purpose::STANDARD;
use base64::Engine;
use vault_service::cipher::{seal, unseal};
use vault_service::crypto::{ProtectedData, Vault};
use vault_service::error::VaultError;
use vault_service::secret::SecretKey;

const PWD: &str = "a-very-strong-test-password-123!";
const SECRET: &str = "account: mario@example.com | pass: hunter2";

const DEK: [u8; 32] = [0x11; 32];
const SALT: [u8; 16] = [0xAB; 16];
const NONCE: [u8; 12] = [1, 2, 3, 4, 5, 6, 7, 8, 9, 10, 11, 12];
const DEK_NONCE: [u8; 12] = [0xF0; 12];

fn fixed(plaintext: &str) -> ProtectedData {
    Vault::encrypt_with(plaintext, PWD, &SecretKey { bytes: DEK }, &SALT, &NONCE, &DEK_NONCE)
        .expect("encrypt failed")
}

/// A record with whatever key and text bytes, sealed as the vault seals them.
fn handmade(dek: &[u8], text: &[u8]) -> ProtectedData {
    let kek = Vault::derive_key(PWD, &SALT).expect("derive failed");
    let encrypted_dek = seal(&kek.bytes, &DEK_NONCE, b"DEK", dek).unwrap();
    let aad = Vault::build_aad(b"DATA", &SALT, &NONCE, 1);
    let ciphertext = seal(&DEK, &NONCE, &aad, text).unwrap();
    ProtectedData::from_raw(&SALT, &NONCE, &DEK_NONCE, encrypted_dek, ciphertext)
}

#[test]
fn roundtrip_encrypt_decrypt() {
    let protected = Vault::encrypt(SECRET, PWD).expect("encrypt failed");
    let plaintext = Vault::decrypt(&protected, PWD).expect("decrypt failed");
    assert_eq!(plaintext.as_str(), SECRET);
}

#[test]
fn wrong_password_is_rejected() {
    let protected = Vault::encrypt(SECRET, PWD).expect("encrypt failed");
    let result = Vault::decrypt(&protected, "wrong-password");
    assert!(matches!(result, Err(VaultError::Decryption)));
}

#[test]
fn tampered_ciphertext_is_rejected() {
    let mut protected = Vault::encrypt(SECRET, PWD).expect("encrypt failed");
    let mut ct = STANDARD.decode(&protected.ciphertext).unwrap();
    ct[0] ^= 0xFF;
    protected.ciphertext = STANDARD.encode(&ct);

    let result = Vault::decrypt(&protected, PWD);
    assert!(matches!(result, Err(VaultError::Decryption)));
}

#[test]
fn tampered_salt_is_rejected() {
    let mut protected = Vault::encrypt(SECRET, PWD).expect("encrypt failed");
    protected.salt = "00".repeat(16);
    let result = Vault::decrypt(&protected, PWD);
    assert!(matches!(result, Err(VaultError::Decryption)));
}

#[test]
fn each_encryption_produces_different_ciphertext() {
    let a = Vault::encrypt(SECRET, PWD).expect("encrypt a failed");
    let b = Vault::encrypt(SECRET, PWD).expect("encrypt b failed");
    assert_ne!(a.ciphertext, b.ciphertext);
    assert_ne!(a.salt, b.salt);
}

#[test]
fn serialization_roundtrip() {
    let protected = Vault::encrypt(SECRET, PWD).expect("encrypt failed");
    let mut fields = serde_json::Map::new();
    fields.insert("salt".to_string(), serde_json::Value::from(protected.salt));
    fields.insert("nonce".to_string(), serde_json::Value::from(protected.nonce));
    fields.insert("dek_nonce".to_string(), serde_json::Value::from(protected.dek_nonce));
    fields.insert("encrypted_dek".to_string(), serde_json::Value::from(protected.encrypted_dek));
    fields.insert("ciphertext".to_string(), serde_json::Value::from(protected.ciphertext));
    fields.insert("version".to_string(), serde_json::Value::from(protected.version));
    let json = serde_json::to_string(&serde_json::Value::from(fields)).expect("serialize failed");

    let read: serde_json::Value = serde_json::from_str(&json).expect("deserialize failed");
    let deserialized = ProtectedData {
        salt: read["salt"].as_str().unwrap().to_string(),
        nonce: read["nonce"].as_str().unwrap().to_string(),
        dek_nonce: read["dek_nonce"].as_str().unwrap().to_string(),
        encrypted_dek: read["encrypted_dek"].as_str().unwrap().to_string(),
        ciphertext: read["ciphertext"].as_str().unwrap().to_string(),
        version: read["version"].as_u64().unwrap() as u8,
    };
    let plaintext = Vault::decrypt(&deserialized, PWD).expect("decrypt failed");
    assert_eq!(plaintext.as_str(), SECRET);
}

#[test]
fn all_draws_are_fresh() {
    let a = Vault::encrypt(SECRET, PWD).expect("encrypt a failed");
    let b = Vault::encrypt(SECRET, PWD).expect("encrypt b failed");
    assert_ne!(a.nonce, b.nonce);
    assert_ne!(a.dek_nonce, b.dek_nonce);
    assert_ne!(a.encrypted_dek, b.encrypted_dek);
    assert_ne!(a.salt, "00".repeat(16));
    assert_ne!(a.nonce, "AAAAAAAAAAAAAAAA");
}

#[test]
fn records_have_their_shape() {
    let data = fixed(SECRET);
    assert_eq!(data.salt, "abababababababababababababababab");
    assert_eq!(data.nonce, "AQIDBAUGBwgJCgsM");
    assert_eq!(data.dek_nonce, "8PDw8PDw8PDw8PDw");
    assert_eq!(data.encrypted_dek.len(), 64);
    assert_eq!(data.ciphertext.len(), (SECRET.len() + 16 + 2) / 3 * 4);
    assert_eq!(data.version, 1);
    let raw = data.to_raw().unwrap();
    assert_eq!(raw.encrypted_dek.len(), 48);
    assert_eq!(raw.ciphertext.len(), SECRET.len() + 16);
}

#[test]
fn less_than_a_tag_opens_to_nothing() {
    for len in [0, 1, 15] {
        assert_eq!(unseal(&DEK, &NONCE, &[], &vec![0u8; len]), None);
    }
    let tag = seal(&DEK, &NONCE, &[], &[]).unwrap();
    assert_eq!(tag.len(), 16);
    assert_eq!(unseal(&DEK, &NONCE, &[], &tag), Some(vec![]));
}

#[test]
fn truncated_ciphertext_is_rejected() {
    let mut data = fixed(SECRET);
    data.ciphertext = "AAAA".to_string();
    assert!(matches!(Vault::decrypt(&data, PWD), Err(VaultError::Decryption)));
    data.ciphertext = String::new();
    assert!(matches!(Vault::decrypt(&data, PWD), Err(VaultError::Decryption)));
}

#[test]
fn records_are_limited_by_memory() {
    let most = isize::MAX as usize / 4 * 3 - 16;
    assert!(Vault::record_fits(0));
    assert!(Vault::record_fits(most));
    assert!(!Vault::record_fits(most + 1));
    assert!(!Vault::record_fits(usize::MAX));
}

#[test]
fn empty_text_round_trips() {
    let data = fixed("");
    assert_eq!(Vault::decrypt(&data, PWD).ok().unwrap().as_str(), "");
}

#[test]
fn accented_text_round_trips() {
    let data = fixed("già cifrato: €");
    assert_eq!(Vault::decrypt(&data, PWD).ok().unwrap().as_str(), "già cifrato: €");
}

#[test]
fn sealing_layers_the_outside_ciphers() {
    let params = argon2::Params::new(65536, 3, 1, Some(32)).unwrap();
    let mut kek = [0u8; 32];
    argon2::Argon2::new(argon2::Algorithm::Argon2id, argon2::Version::V0x13, params)
        .hash_password_into(PWD.as_bytes(), &SALT, &mut kek)
        .unwrap();
    assert_eq!(Vault::derive_key(PWD, &SALT).ok().unwrap().bytes, kek);

    let mut aad = b"DATA".to_vec();
    aad.extend_from_slice(&SALT);
    aad.extend_from_slice(&NONCE);
    aad.push(1);
    let ciphertext = aes_gcm::Aes256Gcm::new_from_slice(&DEK)
        .unwrap()
        .encrypt(aes_gcm::Nonce::from_slice(&NONCE), Payload { msg: SECRET.as_bytes(), aad: &aad })
        .unwrap();
    let encrypted_dek = aes_gcm::Aes256Gcm::new_from_slice(&kek)
        .unwrap()
        .encrypt(aes_gcm::Nonce::from_slice(&DEK_NONCE), Payload { msg: &DEK, aad: b"DEK" })
        .unwrap();

    let data = fixed(SECRET);
    assert_eq!(data.ciphertext, STANDARD.encode(&ciphertext));
    assert_eq!(data.encrypted_dek, STANDARD.encode(&encrypted_dek));
}

#[test]
fn gcm_known_answers() {
    let key = [0u8; 32];
    let nonce = [0u8; 12];
    let empty = seal(&key, &nonce, &[], &[]).unwrap();
    assert_eq!(hex::encode(&empty), "530f8afbc74536b9a963b4f1c4cb738b");
    let block = seal(&key, &nonce, &[], &[0u8; 16]).unwrap();
    assert_eq!(
        hex::encode(&block),
        "cea7403d4d606b6e074ec5d3baf39d18d0d1c8a799996bf0265b98b5d48ab919"
    );
    assert_eq!(unseal(&key, &nonce, &[], &block), Some(vec![0u8; 16]));
    assert_eq!(unseal(&key, &nonce, &[1], &block), None);
    assert_eq!(unseal(&key, &nonce, &[], &block[..15]), None);
}

#[test]
fn build_aad_concatenates() {
    let aad = Vault::build_aad(b"DATA", &SALT, &NONCE, 7);
    assert_eq!(aad.len(), 33);
    assert_eq!(&aad[..4], b"DATA");
    assert_eq!(aad[4..20], SALT);
    assert_eq!(aad[20..32], NONCE);
    assert_eq!(aad[32], 7);
    assert_eq!(Vault::build_aad(&[], &[0; 16], &[0; 12], 0), vec![0u8; 29]);
}

#[test]
fn tampered_version_is_rejected() {
    let mut data = fixed(SECRET);
    data.version = 2;
    assert!(matches!(Vault::decrypt(&data, PWD), Err(VaultError::Decryption)));
}

#[test]
fn tampered_nonce_is_rejected() {
    let mut data = fixed(SECRET);
    data.nonce = "AAAAAAAAAAAAAAAA".to_string();
    assert!(matches!(Vault::decrypt(&data, PWD), Err(VaultError::Decryption)));
}

#[test]
fn tampered_dek_nonce_is_rejected() {
    let mut data = fixed(SECRET);
    data.dek_nonce = "AAAAAAAAAAAAAAAA".to_string();
    assert!(matches!(Vault::decrypt(&data, PWD), Err(VaultError::Decryption)));
}

#[test]
fn truncated_dek_is_rejected() {
    let mut data = fixed(SECRET);
    data.encrypted_dek = "AAAA".to_string();
    assert!(matches!(Vault::decrypt(&data, PWD), Err(VaultError::Decryption)));
    data.encrypted_dek = String::new();
    assert!(matches!(Vault::decrypt(&data, PWD), Err(VaultError::Decryption)));
}

#[test]
fn another_version_opens_if_it_was_sealed_so() {
    let kek = Vault::derive_key(PWD, &SALT).ok().unwrap();
    let encrypted_dek = seal(&kek.bytes, &DEK_NONCE, b"DEK", &DEK).unwrap();
    let aad = Vault::build_aad(b"DATA", &SALT, &NONCE, 2);
    let ciphertext = seal(&DEK, &NONCE, &aad, b"two").unwrap();
    let mut data = ProtectedData::from_raw(&SALT, &NONCE, &DEK_NONCE, encrypted_dek, ciphertext);
    data.version = 2;
    assert_eq!(Vault::decrypt(&data, PWD).ok().unwrap().as_str(), "two");
}

#[test]
fn salt_case_does_not_matter() {
    let mut data = fixed(SECRET);
    data.salt = data.salt.to_uppercase();
    assert_eq!(Vault::decrypt(&data, PWD).ok().unwrap().as_str(), SECRET);
}

#[test]
fn decrypted_bytes_must_be_text() {
    let data = handmade(&DEK, b"\xFF\xFE");
    assert!(matches!(Vault::decrypt(&data, PWD), Err(VaultError::InvalidUtf8)));
}

#[test]
fn handmade_records_open() {
    let data = handmade(&DEK, b"plain");
    assert_eq!(Vault::decrypt(&data, PWD).ok().unwrap().as_str(), "plain");
}

#[test]
fn short_decrypted_key_is_rejected() {
    let data = handmade(&[0x11; 31], b"plain");
    assert!(matches!(Vault::decrypt(&data, PWD), Err(VaultError::Decryption)));
}

#[test]
fn long_decrypted_key_is_rejected() {
    let data = handmade(&[0x11; 33], b"plain");
    assert!(matches!(Vault::decrypt(&data, PWD), Err(VaultError::Decryption)));
}

#[test]
fn short_salt_gives_no_key() {
    match Vault::derive_key(PWD, &[1, 2, 3, 4, 5, 6, 7]) {
        Err(VaultError::KeyDerivation(reason)) => assert_eq!(reason, "salt is too short"),
        _ => panic!("a key was derived"),
    }
    let key = Vault::derive_key(PWD, &[1, 2, 3, 4, 5, 6, 7, 8]).ok().unwrap();
    assert_ne!(key.bytes, [0u8; 32]);
}

#[test]
fn unsealed_keys_are_measured() {
    assert_eq!(Vault::take_dek(Some(vec![5; 32])).ok().unwrap().bytes, [5; 32]);
    assert!(matches!(Vault::take_dek(Some(vec![5; 31])), Err(VaultError::Decryption)));
    assert!(matches!(Vault::take_dek(Some(vec![])), Err(VaultError::Decryption)));
    assert!(matches!(Vault::take_dek(None), Err(VaultError::Decryption)));
}

#[test]
fn unsealed_texts_are_utf8() {
    assert_eq!(Vault::take_text(Some("caffè".as_bytes().to_vec())).ok().unwrap().as_str(), "caffè");
    assert!(matches!(Vault::take_text(Some(vec![0xC3])), Err(VaultError::InvalidUtf8)));
    assert!(matches!(Vault::take_text(None), Err(VaultError::Decryption)));
}

#[test]
fn another_ciphertext_reads_differently() {
    let mut data = handmade(&DEK, b"one");
    let aad = Vault::build_aad(b"DATA", &SALT, &NONCE, 1);
    data.ciphertext = STANDARD.encode(seal(&DEK, &NONCE, &aad, b"two").unwrap());
    assert_eq!(Vault::decrypt(&data, PWD).ok().unwrap().as_str(), "two");
}

#[test]
fn keys_and_texts_are_kept_apart() {
    let aad = Vault::build_aad(b"DATA", &SALT, &NONCE, 1);
    let text = seal(&DEK, &NONCE, &aad, &[7; 32]).unwrap();
    assert_eq!(unseal(&DEK, &NONCE, b"DEK", &text), None);
    assert_eq!(unseal(&DEK, &NONCE, &aad, &text), Some(vec![7; 32]));
    for (salt, nonce, version) in [([0; 16], NONCE, 1), (SALT, [0; 12], 1), (SALT, NONCE, 0)] {
        let other = Vault::build_aad(b"DATA", &salt, &nonce, version);
        assert_ne!(other, aad);
        assert_eq!(unseal(&DEK, &NONCE, &other, &text), None);
    }
}

#[test]
fn malformed_records_need_no_password() {
    let mut data = ProtectedData::from_raw(&SALT, &NONCE, &DEK_NONCE, vec![], vec![]);
    data.encrypted_dek = "?".to_string();
    for password in [PWD, ""] {
        match Vault::decrypt(&data, password) {
            Err(e) => assert_eq!(e.message(), "Base64 decode error: Invalid symbol 63, offset 0."),
            Ok(_) => panic!("the record was opened"),
        }
    }
}

#[test]
fn different_draws_make_different_records() {
    let a = ProtectedData::from_raw(&SALT, &NONCE, &DEK_NONCE, vec![1], vec![2]);
    let b = ProtectedData::from_raw(&[0; 16], &[1; 12], &[2; 12], vec![1, 0], vec![2, 0]);
    assert_ne!(a.salt, b.salt);
    assert_ne!(a.nonce, b.nonce);
    assert_ne!(a.dek_nonce, b.dek_nonce);
    assert_ne!(a.encrypted_dek, b.encrypted_dek);
    assert_ne!(a.ciphertext, b.ciphertext);
}
