//! What can go wrong in the vault, and the words for it.

use vstd::prelude::*;

use crate::codec::{
    base64_error_string, base64_error_text, hex_error_string, hex_error_text, Base64Error, HexError,
};
use crate::text::{decimal, push_decimal};

verus! {

/// Why the vault refused.
#[derive(Debug)]
pub enum VaultError {
    /// No key could be derived from the password; the reason in words.
    KeyDerivation(String),
    /// The text could not be encrypted.
    Encryption,
    /// The password is wrong or the data is corrupted; nothing tells the two apart.
    Decryption,
    /// What was decrypted is not UTF-8.
    InvalidUtf8,
    /// A field is not Base64.
    Base64(Base64Error),
    /// The salt is not hexadecimal.
    Hex(HexError),
    /// A field decodes to the wrong number of bytes.
    InvalidLength { field: &'static str, expected: usize, got: usize },
}

/// What a [`VaultError`] says.
pub enum Failure {
    KeyDerivation(Seq<char>),
    Encryption,
    Decryption,
    InvalidUtf8,
    Base64(Base64Error),
    Hex(HexError),
    InvalidLength { field: Seq<char>, expected: nat, got: nat },
}

impl View for VaultError {
    type V = Failure;

    open spec fn view(&self) -> Failure {
        match *self {
            VaultError::KeyDerivation(reason) => Failure::KeyDerivation(reason@),
            VaultError::Encryption => Failure::Encryption,
            VaultError::Decryption => Failure::Decryption,
            VaultError::InvalidUtf8 => Failure::InvalidUtf8,
            VaultError::Base64(e) => Failure::Base64(e),
            VaultError::Hex(e) => Failure::Hex(e),
            VaultError::InvalidLength { field, expected, got } => Failure::InvalidLength {
                field: field@,
                expected: expected as nat,
                got: got as nat,
            },
        }
    }
}

/// What a call came to: the view of the value, or what the error says.
pub open spec fn outcome<T: View>(r: Result<T, VaultError>) -> Result<T::V, Failure> {
    match r {
        Ok(value) => Ok(value@),
        Err(e) => Err(e@),
    }
}

/// The sentence for a failure.
pub open spec fn failure_text(failure: Failure) -> Seq<char> {
    match failure {
        Failure::KeyDerivation(reason) => "Argon2 key derivation failed: "@ + reason,
        Failure::Encryption => "Encryption failed"@,
        Failure::Decryption => "Decryption failed: wrong password or corrupted data"@,
        Failure::InvalidUtf8 => "Invalid UTF-8 in decrypted plaintext"@,
        Failure::Base64(e) => "Base64 decode error: "@ + base64_error_text(e),
        Failure::Hex(e) => "Hex decode error: "@ + hex_error_text(e),
        Failure::InvalidLength { field, expected, got } => "Invalid data length for field '"@
            + field + "': expected "@ + decimal(expected) + ", got "@ + decimal(got),
    }
}

impl VaultError {
    /// The error in words.
    pub fn message(&self) -> (text: String)
        ensures
            text@ == failure_text(self@),
    {
        match self {
            VaultError::KeyDerivation(reason) => {
                let mut text = "Argon2 key derivation failed: ".to_owned();
                text.append(reason.as_str());
                text
            },
            VaultError::Encryption => "Encryption failed".to_owned(),
            VaultError::Decryption => {
                "Decryption failed: wrong password or corrupted data".to_owned()
            },
            VaultError::InvalidUtf8 => "Invalid UTF-8 in decrypted plaintext".to_owned(),
            VaultError::Base64(e) => {
                let mut text = "Base64 decode error: ".to_owned();
                text.append(base64_error_string(e).as_str());
                text
            },
            VaultError::Hex(e) => {
                let mut text = "Hex decode error: ".to_owned();
                text.append(hex_error_string(e).as_str());
                text
            },
            VaultError::InvalidLength { field, expected, got } => {
                let mut text = "Invalid data length for field '".to_owned();
                text.append(field);
                text.append("': expected ");
                push_decimal(&mut text, *expected);
                text.append(", got ");
                push_decimal(&mut text, *got);
                text
            },
        }
    }
}

} // verus!
