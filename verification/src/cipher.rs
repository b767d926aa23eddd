//! Authenticated encryption with AES-256-GCM.

use aes_gcm::aead::{Aead, KeyInit, Payload};
use aes_gcm::{Aes256Gcm, Key, Nonce};
use vstd::prelude::*;

verus! {

/// The longest message, and the longest associated data, that can be encrypted.
pub const MAX_MESSAGE_LEN: u64 = 0x10_0000_0000;

/// The longest message that decryption gives back.
pub const MAX_OPENED_LEN: u64 = 0x10_0000_0010;

/// The length of the authentication tag that ends a ciphertext.
pub const TAG_LEN: usize = 16;

/// The error of `aes_gcm`, which says nothing but that there is one.
#[verifier::external_type_specification]
#[verifier::external_body]
pub struct ExAeadError(aes_gcm::Error);

/// The AES-256-GCM ciphertext of a message, followed by its tag. It is the same function for the
/// few messages that are too long for `encrypt` and that `decrypt` would still give back.
pub uninterp spec fn gcm_ciphertext(
    key: Seq<u8>,
    nonce: Seq<u8>,
    aad: Seq<u8>,
    message: Seq<u8>,
) -> Seq<u8>;

/// `ciphertext` is the encryption of `message` under this key, nonce and associated data.
pub open spec fn is_sealing(
    key: Seq<u8>,
    nonce: Seq<u8>,
    aad: Seq<u8>,
    message: Seq<u8>,
    ciphertext: Seq<u8>,
) -> bool {
    &&& message.len() <= MAX_OPENED_LEN
    &&& gcm_ciphertext(key, nonce, aad, message) == ciphertext
}

/// The message that `ciphertext` is the encryption of, if it is the encryption of any.
pub open spec fn unsealed(
    key: Seq<u8>,
    nonce: Seq<u8>,
    aad: Seq<u8>,
    ciphertext: Seq<u8>,
) -> Option<Seq<u8>> {
    if exists|message: Seq<u8>| is_sealing(key, nonce, aad, message, ciphertext) {
        Some(choose|message: Seq<u8>| is_sealing(key, nonce, aad, message, ciphertext))
    } else {
        None
    }
}

/// Calls `encrypt` of `aes_gcm::Aes256Gcm`. It refuses a message or associated data that is too
/// long, and nothing else. What it returns is the ciphertext with the tag behind it, 16 bytes
/// longer than the message; since the key stream is that of the key and the nonce, no other
/// message has the same ciphertext there.
#[verifier::external_body]
pub(crate) fn gcm_encrypt(
    key: &[u8; 32],
    nonce: &[u8; 12],
    aad: &[u8],
    message: &[u8],
) -> (r: Result<Vec<u8>, aes_gcm::Error>)
    requires
        message@.len() + TAG_LEN <= isize::MAX,
    ensures
        match r {
            Ok(ciphertext) => {
                &&& message@.len() <= MAX_MESSAGE_LEN
                &&& aad@.len() <= MAX_MESSAGE_LEN
                &&& ciphertext@ == gcm_ciphertext(key@, nonce@, aad@, message@)
                &&& ciphertext@.len() == message@.len() + TAG_LEN
                &&& forall|other: Seq<u8>| #[trigger]
                    is_sealing(key@, nonce@, aad@, other, ciphertext@) ==> other == message@
            },
            Err(_) => message@.len() > MAX_MESSAGE_LEN || aad@.len() > MAX_MESSAGE_LEN,
        },
{
    Aes256Gcm::new(Key::<Aes256Gcm>::from_slice(key)).encrypt(
        Nonce::from_slice(nonce),
        Payload { msg: message, aad },
    )
}

/// Calls `decrypt` of `aes_gcm::Aes256Gcm`. It recomputes the tag and, if that is the one at the
/// end, undoes the encryption; so it succeeds on the encryptions under this key, nonce and
/// associated data and on nothing else, and gives back the one message that was encrypted.
#[verifier::external_body]
pub(crate) fn gcm_decrypt(
    key: &[u8; 32],
    nonce: &[u8; 12],
    aad: &[u8],
    ciphertext: &[u8],
) -> (r: Result<Vec<u8>, aes_gcm::Error>)
    requires
        aad@.len() <= MAX_MESSAGE_LEN,
    ensures
        match r {
            Ok(message) => {
                &&& ciphertext@ == gcm_ciphertext(key@, nonce@, aad@, message@)
                &&& ciphertext@.len() == message@.len() + TAG_LEN
                &&& message@.len() <= MAX_OPENED_LEN
                &&& forall|other: Seq<u8>| #[trigger]
                    is_sealing(key@, nonce@, aad@, other, ciphertext@) ==> other == message@
            },
            Err(_) => forall|other: Seq<u8>| !#[trigger]
                is_sealing(key@, nonce@, aad@, other, ciphertext@),
        },
{
    Aes256Gcm::new(Key::<Aes256Gcm>::from_slice(key)).decrypt(
        Nonce::from_slice(nonce),
        Payload { msg: ciphertext, aad },
    )
}

/// If a ciphertext is the encryption of one message only, it is unsealed to that message.
proof fn lemma_unsealed(
    key: Seq<u8>,
    nonce: Seq<u8>,
    aad: Seq<u8>,
    message: Seq<u8>,
    ciphertext: Seq<u8>,
)
    requires
        is_sealing(key, nonce, aad, message, ciphertext),
        forall|other: Seq<u8>| #[trigger]
            is_sealing(key, nonce, aad, other, ciphertext) ==> other == message,
    ensures
        unsealed(key, nonce, aad, ciphertext) == Some(message),
{
}

/// Encrypts `message`, unless it or the associated data is too long. What it returns is unsealed
/// to `message` again.
pub fn seal(key: &[u8; 32], nonce: &[u8; 12], aad: &[u8], message: &[u8]) -> (r: Option<Vec<u8>>)
    requires
        message@.len() + TAG_LEN <= isize::MAX,
    ensures
        match r {
            Some(ciphertext) => {
                &&& message@.len() <= MAX_MESSAGE_LEN
                &&& aad@.len() <= MAX_MESSAGE_LEN
                &&& ciphertext@ == gcm_ciphertext(key@, nonce@, aad@, message@)
                &&& ciphertext@.len() == message@.len() + TAG_LEN
                &&& unsealed(key@, nonce@, aad@, ciphertext@) == Some(message@)
            },
            None => message@.len() > MAX_MESSAGE_LEN || aad@.len() > MAX_MESSAGE_LEN,
        },
{
    match gcm_encrypt(key, nonce, aad, message) {
        Ok(ciphertext) => {
            proof {
                lemma_unsealed(key@, nonce@, aad@, message@, ciphertext@);
            }
            Some(ciphertext)
        },
        Err(_) => None,
    }
}

/// Decrypts `ciphertext`, if it is an encryption under this key, nonce and associated data. What is
/// shorter than a tag never is.
pub fn unseal(key: &[u8; 32], nonce: &[u8; 12], aad: &[u8], ciphertext: &[u8]) -> (r: Option<Vec<u8>>)
    requires
        aad@.len() <= MAX_MESSAGE_LEN,
    ensures
        match r {
            Some(message) => {
                &&& unsealed(key@, nonce@, aad@, ciphertext@) == Some(message@)
                &&& ciphertext@.len() == message@.len() + TAG_LEN
                &&& forall|other: Seq<u8>| #[trigger]
                    is_sealing(key@, nonce@, aad@, other, ciphertext@) ==> other == message@
            },
            None => unsealed(key@, nonce@, aad@, ciphertext@) is None,
        },
{
    match gcm_decrypt(key, nonce, aad, ciphertext) {
        Ok(message) => {
            proof {
                lemma_unsealed(key@, nonce@, aad@, message@, ciphertext@);
            }
            Some(message)
        },
        Err(_) => None,
    }
}

} // verus!
