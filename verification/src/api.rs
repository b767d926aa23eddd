//! The requests of the service and its answers to them, without the network around them.

use vstd::prelude::*;
use vstd::utf8::encode_utf8;

use crate::config::AppState;
use crate::crypto::{
    are_draws, fits_in_memory, has_impossible_size, has_shape, holds_sizes, is_opening, opened,
    parsed, sealed, sealing_failure, text_of, ProtectedData, Record, Vault,
};
use crate::error::{failure_text, Failure, VaultError};
use crate::secret::SecretText;

verus! {

/// Asks for a text to be sealed.
#[derive(Debug)]
pub struct EncryptRequest {
    /// The text.
    pub plaintext: String,
}

/// The answer to an [`EncryptRequest`].
#[derive(Debug)]
pub struct EncryptResponse {
    /// The record that the text was sealed in.
    pub data: ProtectedData,
}

/// Asks for a record to be opened.
#[derive(Debug)]
pub struct DecryptRequest {
    /// The record.
    pub data: ProtectedData,
}

/// The answer to a [`DecryptRequest`].
#[derive(Debug)]
pub struct DecryptResponse {
    /// The text that was sealed.
    pub plaintext: String,
}

/// The answer to a request that failed.
#[derive(Debug)]
pub struct ErrorResponse {
    /// What went wrong, in words.
    pub error: String,
    /// What went wrong, for programs.
    pub code: &'static str,
}

/// The answer to a liveness probe.
#[derive(Debug)]
pub struct HealthResponse {
    pub status: &'static str,
    pub version: &'static str,
}

/// An HTTP status and the body that goes with it.
#[derive(Debug)]
pub struct Reply<T> {
    pub status: u16,
    pub body: Result<T, ErrorResponse>,
    /// Why the request failed, in full, for the log and not for the client.
    pub cause: Option<String>,
}

/// HTTP 200.
pub const STATUS_OK: u16 = 200;

/// HTTP 400.
pub const STATUS_BAD_REQUEST: u16 = 400;

/// HTTP 401.
pub const STATUS_UNAUTHORIZED: u16 = 401;

/// HTTP 500.
pub const STATUS_INTERNAL_SERVER_ERROR: u16 = 500;

/// The status that a failure is answered with.
pub open spec fn failure_status(failure: Failure) -> u16 {
    match failure {
        Failure::Decryption => STATUS_UNAUTHORIZED,
        Failure::KeyDerivation(_) => STATUS_INTERNAL_SERVER_ERROR,
        _ => STATUS_BAD_REQUEST,
    }
}

/// The words that a failure is answered with. A failure to decrypt does not say why, and one of
/// the service itself says nothing at all.
pub open spec fn failure_words(failure: Failure) -> Seq<char> {
    match failure {
        Failure::Decryption => "Decryption failed"@,
        Failure::KeyDerivation(_) => "Internal error"@,
        _ => failure_text(failure),
    }
}

/// The code that a failure is answered with.
pub open spec fn failure_code(failure: Failure) -> Seq<char> {
    match failure {
        Failure::Decryption => "DECRYPTION_FAILED"@,
        Failure::KeyDerivation(_) => "KEY_DERIVATION_ERROR"@,
        _ => "VAULT_ERROR"@,
    }
}

/// `reply` is the answer to `failure`.
pub open spec fn answers_failure<T>(reply: Reply<T>, failure: Failure) -> bool {
    &&& reply.status == failure_status(failure)
    &&& reply.body matches Err(body)
    &&& body.error@ == failure_words(failure)
    &&& body.code@ == failure_code(failure)
    &&& reply.cause matches Some(cause)
    &&& cause@ == failure_text(failure)
}

/// The answer to an error of the vault.
pub fn vault_error_response<T>(e: VaultError) -> (reply: Reply<T>)
    ensures
        answers_failure(reply, e@),
        reply.status == 401 <==> e is Decryption,
        reply.status == 500 <==> e is KeyDerivation,
        reply.status == 400 <==> !(e is Decryption || e is KeyDerivation),
{
    let cause = Some(e.message());
    match e {
        VaultError::Decryption => Reply {
            status: STATUS_UNAUTHORIZED,
            body: Err(
                ErrorResponse { error: "Decryption failed".to_owned(), code: "DECRYPTION_FAILED" },
            ),
            cause,
        },
        VaultError::KeyDerivation(_) => Reply {
            status: STATUS_INTERNAL_SERVER_ERROR,
            body: Err(
                ErrorResponse { error: "Internal error".to_owned(), code: "KEY_DERIVATION_ERROR" },
            ),
            cause,
        },
        _ => Reply {
            status: STATUS_BAD_REQUEST,
            body: Err(ErrorResponse { error: e.message(), code: "VAULT_ERROR" }),
            cause,
        },
    }
}

/// The answer to what sealing came to.
pub fn encrypt_reply(result: Result<ProtectedData, VaultError>) -> (reply: Reply<EncryptResponse>)
    ensures
        match result {
            Ok(data) => {
                &&& reply.status == STATUS_OK
                &&& reply.cause is None
                &&& reply.body matches Ok(response)
                &&& response.data == data
            },
            Err(e) => answers_failure(reply, e@),
        },
{
    match result {
        Ok(data) => Reply { status: STATUS_OK, body: Ok(EncryptResponse { data }), cause: None },
        Err(e) => vault_error_response(e),
    }
}

/// The answer to what opening came to.
pub fn decrypt_reply(result: Result<SecretText, VaultError>) -> (reply: Reply<DecryptResponse>)
    ensures
        match result {
            Ok(plaintext) => {
                &&& reply.status == STATUS_OK
                &&& reply.cause is None
                &&& reply.body matches Ok(response)
                &&& response.plaintext@ == plaintext@
            },
            Err(e) => answers_failure(reply, e@),
        },
{
    match result {
        Ok(plaintext) => Reply {
            status: STATUS_OK,
            body: Ok(DecryptResponse { plaintext: plaintext.as_str().to_owned() }),
            cause: None,
        },
        Err(e) => vault_error_response(e),
    }
}

/// `POST /encrypt`: seals the text under the master password.
pub fn encrypt_handler(state: &AppState, req: EncryptRequest) -> (reply: Reply<EncryptResponse>)
    requires
        fits_in_memory(encode_utf8(req.plaintext@).len()),
    ensures
        match sealing_failure(req.plaintext@, state.master_password@) {
            Some(failure) => answers_failure(reply, failure),
            None => {
                &&& reply.status == STATUS_OK
                &&& reply.cause is None
                &&& reply.body matches Ok(response)
                &&& opened(response.data@, state.master_password@) == Ok::<Seq<char>, Failure>(
                    req.plaintext@,
                )
                &&& has_shape(response.data@, encode_utf8(req.plaintext@).len())
                &&& holds_sizes(response.data@, encode_utf8(req.plaintext@).len())
                &&& exists|dek: Seq<u8>, salt: Seq<u8>, nonce: Seq<u8>, dek_nonce: Seq<u8>|
                    #[trigger] are_draws(dek, salt, nonce, dek_nonce) && sealed(
                        req.plaintext@,
                        state.master_password@,
                        dek,
                        salt,
                        nonce,
                        dek_nonce,
                    ) == Ok::<Record, Failure>(response.data@)
            },
        },
{
    let plaintext = SecretText::new(req.plaintext);
    encrypt_reply(Vault::encrypt(plaintext.as_str(), state.master_password.as_str()))
}

/// `POST /decrypt`: opens the record with the master password.
pub fn decrypt_handler(state: &AppState, req: DecryptRequest) -> (reply: Reply<DecryptResponse>)
    ensures
        match opened(req.data@, state.master_password@) {
            Ok(text) => {
                &&& reply.status == STATUS_OK
                &&& reply.cause is None
                &&& reply.body matches Ok(response)
                &&& response.plaintext@ == text
                &&& holds_sizes(req.data@, encode_utf8(text).len())
            },
            Err(failure) => answers_failure(reply, failure),
        },
        parsed(req.data@) matches Ok(raw) ==> forall|dek: Seq<u8>, bytes: Seq<u8>| #[trigger]
            is_opening(raw, req.data.version, state.master_password@, dek, bytes) ==> match text_of(
                Some(bytes),
            ) {
                Ok(text) => reply.body matches Ok(response) && response.plaintext@ == text,
                Err(failure) => answers_failure(reply, failure),
            },
        has_impossible_size(req.data@, state.master_password@) ==> answers_failure(
            reply,
            Failure::Decryption,
        ),
{
    decrypt_reply(Vault::decrypt(&req.data, state.master_password.as_str()))
}

/// `GET /health`: the service is alive and of this version.
pub fn health_handler(version: &'static str) -> (response: HealthResponse)
    ensures
        response.status@ == "ok"@,
        response.version@ == version@,
{
    HealthResponse { status: "ok", version }
}

} // verus!
