//! The answers of the service.

use vault_service::api::{
    decrypt_handler, decrypt_reply, encrypt_handler, encrypt_reply, health_handler,
    vault_error_response, DecryptRequest, EncryptRequest, EncryptResponse,
};
use vault_service::codec::Base64Error;
use vault_service::config::AppState;
use vault_service::crypto::{ProtectedData, Vault};
use vault_service::error::VaultError;
use vault_service::secret::SecretText;

fn state(password: &str) -> AppState {
    AppState::new(SecretText::new(password.to_string()))
}

#[test]
fn what_was_encrypted_is_decrypted() {
    let state = state("a-very-strong-test-password-123!");
    let reply = encrypt_handler(&state, EncryptRequest { plaintext: "password_segreta".to_string() });
    assert_eq!(reply.status, 200);
    let data = reply.body.expect("encrypt failed").data;
    assert_eq!(data.version, 1);

    let reply = decrypt_handler(&state, DecryptRequest { data });
    assert_eq!(reply.status, 200);
    assert_eq!(reply.body.expect("decrypt failed").plaintext, "password_segreta");
}

#[test]
fn refusals_do_not_say_why() {
    let right = state("a-very-strong-test-password-123!");
    let wrong = state("another-password-altogether");
    let data = Vault::encrypt("secret", "a-very-strong-test-password-123!").expect("encrypt failed");
    let mut corrupted = data.clone();
    corrupted.version = 9;

    let reply1 = decrypt_handler(&wrong, DecryptRequest { data });
    let reply2 = decrypt_handler(&right, DecryptRequest { data: corrupted });
    assert_eq!(reply1.status, 401);
    assert_eq!(reply2.status, 401);
    let body1 = reply1.body.unwrap_err();
    let body2 = reply2.body.unwrap_err();
    assert_eq!(body1.error, "Decryption failed");
    assert_eq!(body1.code, "DECRYPTION_FAILED");
    assert_eq!(body1.error, body2.error);
    assert_eq!(body1.code, body2.code);
}

#[test]
fn impossible_sizes_are_refusals() {
    let password = "a-very-strong-test-password-123!";
    for (dek_len, text_len) in [(47, 16), (48, 15)] {
        let data = ProtectedData::from_raw(
            &[1; 16],
            &[2; 12],
            &[3; 12],
            vec![4; dek_len],
            vec![5; text_len],
        );
        let reply = decrypt_handler(&state(password), DecryptRequest { data });
        assert_eq!(reply.status, 401);
        assert_eq!(reply.body.unwrap_err().code, "DECRYPTION_FAILED");
    }
}

#[test]
fn malformed_records_are_bad_requests() {
    let mut data = Vault::encrypt("secret", "pw").expect("encrypt failed");
    data.nonce = "AAAA".to_string();
    let reply = decrypt_handler(&state("pw"), DecryptRequest { data });
    assert_eq!(reply.status, 400);
    let body = reply.body.unwrap_err();
    assert_eq!(body.error, "Invalid data length for field 'nonce': expected 12, got 3");
    assert_eq!(body.code, "VAULT_ERROR");
}

#[test]
fn errors_have_their_status() {
    let expect = |e: VaultError, status: u16, words: &str, code: &str| {
        let cause = e.message();
        let reply = vault_error_response::<EncryptResponse>(e);
        assert_eq!(reply.status, status);
        let body = reply.body.unwrap_err();
        assert_eq!(body.error, words);
        assert_eq!(body.code, code);
        assert_eq!(reply.cause, Some(cause));
    };
    expect(VaultError::Decryption, 401, "Decryption failed", "DECRYPTION_FAILED");
    expect(
        VaultError::KeyDerivation("password is too long".to_string()),
        500,
        "Internal error",
        "KEY_DERIVATION_ERROR",
    );
    expect(VaultError::Encryption, 400, "Encryption failed", "VAULT_ERROR");
    expect(VaultError::InvalidUtf8, 400, "Invalid UTF-8 in decrypted plaintext", "VAULT_ERROR");
    expect(
        VaultError::Base64(Base64Error::InvalidPadding),
        400,
        "Base64 decode error: Invalid padding",
        "VAULT_ERROR",
    );
}

#[test]
fn the_service_is_alive() {
    let health = health_handler("1.2.3");
    assert_eq!(health.status, "ok");
    assert_eq!(health.version, "1.2.3");
}

#[test]
fn results_are_answered() {
    let reply = decrypt_reply(Ok(SecretText::new("opened".to_string())));
    assert_eq!(reply.status, 200);
    assert_eq!(reply.cause, None);
    assert_eq!(reply.body.unwrap().plaintext, "opened");
    let reply = decrypt_reply(Err(VaultError::InvalidUtf8));
    assert_eq!(reply.status, 400);

    let data = ProtectedData::from_raw(&[1; 16], &[2; 12], &[3; 12], vec![4], vec![5]);
    let reply = encrypt_reply(Ok(data));
    assert_eq!(reply.status, 200);
    assert_eq!(reply.cause, None);
    assert_eq!(reply.body.unwrap().data.salt, "01".repeat(16));
    let reply = encrypt_reply(Err(VaultError::KeyDerivation("password is too long".to_string())));
    assert_eq!(reply.status, 500);
    assert_eq!(
        reply.cause.unwrap(),
        VaultError::KeyDerivation("password is too long".to_string()).message()
    );
}
