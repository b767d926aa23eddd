//! What single calls come to and how two calls relate, stated over their arguments and results
//! alone: over bytes, texts and numbers, the outside ciphers and the two encodings.

use vstd::prelude::*;
use vstd::utf8::{decode_utf8, encode_utf8, valid_utf8};

use crate::api::{
    decrypt_handler, decrypt_reply, encrypt_handler, encrypt_reply, health_handler,
    vault_error_response, DecryptRequest, DecryptResponse, EncryptRequest, EncryptResponse,
    HealthResponse, Reply,
};
use crate::cipher::{gcm_ciphertext, is_sealing, seal, unseal, unsealed};
use crate::codec::{
    base64_canonical, base64_decoding, base64_injective, base64_refusal, base64_text, char_literal, hex_decoding,
    hex_round_trip, hex_text, Base64Error, HexError,
};
use crate::config::{AppState, Config};
use crate::crypto::{
    aad_of, are_draws, data_context, dek_context, derived_key, is_opening, opened, parsed, sealed,
    ProtectedData, RawData, RawFields, Record, Vault,
};
use crate::error::{outcome, Failure, VaultError};
use crate::kdf::argon2id;
use crate::laws::opened_only_if_sealed;
use crate::random::drawn_over;
use crate::secret::{SecretKey, SecretText};
use crate::text::{decimal, to_array};

verus! {

// ---------------------------------------------------------------------------------------------
// Keys
// ---------------------------------------------------------------------------------------------

/// The key is the Argon2id hash of the whole password, with 64 MiB, three passes and one lane; it
/// is refused only for a length that Argon2 cannot take.
pub proof fn key_is_hash_of_whole_password(
    password: &str,
    salt: &[u8],
    r: Result<SecretKey, VaultError>,
)
    requires
        call_ensures(Vault::derive_key, (password, salt), r),
    ensures
        match r {
            Ok(key) => {
                &&& encode_utf8(password@).len() <= 0xFFFF_FFFF
                &&& 8 <= salt@.len() <= 0xFFFF_FFFF
                &&& key.bytes@ == argon2id(65536, 3, 1, encode_utf8(password@), salt@, 32)
            },
            Err(VaultError::KeyDerivation(reason)) => {
                ||| encode_utf8(password@).len() > 0xFFFF_FFFF && reason@
                    == "password is too long"@
                ||| encode_utf8(password@).len() <= 0xFFFF_FFFF && salt@.len() < 8 && reason@
                    == "salt is too short"@
                ||| encode_utf8(password@).len() <= 0xFFFF_FFFF && salt@.len() > 0xFFFF_FFFF
                    && reason@ == "salt is too long"@
            },
            Err(_) => false,
        },
{
}

/// Two passwords give the same key with a salt just if Argon2id hashes all their bytes to the same.
pub proof fn keys_agree_where_hashes_do(
    password1: &str,
    password2: &str,
    salt: &[u8],
    key1: SecretKey,
    key2: SecretKey,
)
    requires
        call_ensures(
            Vault::derive_key,
            (password1, salt),
            Ok::<SecretKey, VaultError>(key1),
        ),
        call_ensures(
            Vault::derive_key,
            (password2, salt),
            Ok::<SecretKey, VaultError>(key2),
        ),
    ensures
        key1.bytes@ == key2.bytes@ <==> argon2id(
            65536,
            3,
            1,
            encode_utf8(password1@),
            salt@,
            32,
        ) == argon2id(65536, 3, 1, encode_utf8(password2@), salt@, 32),
{
}

/// The associated data is the context, the salt, the nonce and the version, and nothing else.
pub proof fn aad_is_its_parts(
    context: &[u8],
    salt: &[u8; 16],
    nonce: &[u8; 12],
    version: u8,
    aad: Vec<u8>,
)
    requires
        call_ensures(Vault::build_aad, (context, salt, nonce, version), aad),
    ensures
        aad@.len() == context@.len() + 29,
        aad@.take(context@.len() as int) == context@,
        aad@.skip(context@.len() as int).take(16) == salt@,
        aad@.skip(context@.len() as int + 16).take(12) == nonce@,
        aad@.last() == version,
{
    assert(aad@.take(context@.len() as int) =~= context@);
    assert(aad@.skip(context@.len() as int).take(16) =~= salt@);
    assert(aad@.skip(context@.len() as int + 16).take(12) =~= nonce@);
}

// ---------------------------------------------------------------------------------------------
// The cipher
// ---------------------------------------------------------------------------------------------

/// Sealing is AES-256-GCM of the whole message, and is refused only where something is too long.
pub proof fn sealing_is_gcm(
    key: &[u8; 32],
    nonce: &[u8; 12],
    aad: &[u8],
    message: &[u8],
    r: Option<Vec<u8>>,
)
    requires
        call_ensures(seal, (key, nonce, aad, message), r),
    ensures
        r is Some <==> message@.len() <= 0x10_0000_0000 && aad@.len() <= 0x10_0000_0000,
        r matches Some(ciphertext) ==> {
            &&& ciphertext@ == gcm_ciphertext(key@, nonce@, aad@, message@)
            &&& ciphertext@.len() == message@.len() + 16
        },
{
}

/// Unsealing gives the message whose encryption the ciphertext is, and nothing just if there is
/// none.
pub proof fn unsealing_inverts_gcm(
    key: &[u8; 32],
    nonce: &[u8; 12],
    aad: &[u8],
    ciphertext: &[u8],
    r: Option<Vec<u8>>,
    message: Seq<u8>,
)
    requires
        call_ensures(unseal, (key, nonce, aad, ciphertext), r),
        message.len() <= 0x10_0000_0010,
    ensures
        gcm_ciphertext(key@, nonce@, aad@, message) == ciphertext@ ==> (r matches Some(found)
            && found@ == message),
        r matches Some(found) ==> {
            &&& gcm_ciphertext(key@, nonce@, aad@, found@) == ciphertext@
            &&& found@.len() + 16 == ciphertext@.len()
            &&& found@.len() <= 0x10_0000_0010
        },
{
    assert(is_sealing(key@, nonce@, aad@, message, ciphertext@) <==> gcm_ciphertext(
        key@,
        nonce@,
        aad@,
        message,
    ) == ciphertext@);
    if let Some(found) = r {
        assert(is_sealing(key@, nonce@, aad@, found@, ciphertext@));
    }
}

/// What was sealed is unsealed to the same message under the same key, nonce and associated data.
pub proof fn unsealing_undoes_sealing(
    key: &[u8; 32],
    nonce: &[u8; 12],
    aad: &[u8],
    message: &[u8],
    ciphertext: Vec<u8>,
    text: &[u8],
    r: Option<Vec<u8>>,
)
    requires
        call_ensures(seal, (key, nonce, aad, message), Some(ciphertext)),
        text@ == ciphertext@,
        call_ensures(unseal, (key, nonce, aad, text), r),
    ensures
        r matches Some(found) && found@ == message@,
{
    unsealing_inverts_gcm(key, nonce, aad, text, r, message@);
}

// ---------------------------------------------------------------------------------------------
// Records
// ---------------------------------------------------------------------------------------------

/// The text is the Base64 of some bytes.
pub open spec fn is_base64(text: Seq<char>) -> bool {
    exists|bytes: Seq<u8>| #[trigger] base64_text(bytes) == text
}

/// Whether a text is Base64 is whether it decodes, and to what is known.
proof fn lemma_base64_decoding(text: Seq<char>)
    ensures
        match base64_decoding(text) {
            Ok(bytes) => is_base64(text) && base64_text(bytes) == text,
            Err(e) => !is_base64(text) && e == base64_refusal(text),
        },
{
}

/// Bytes are written in the encoding of their field, whole, and the record is of version 1.
pub proof fn writing_encodes_each_field(
    salt: &[u8; 16],
    nonce: &[u8; 12],
    dek_nonce: &[u8; 12],
    encrypted_dek: Vec<u8>,
    ciphertext: Vec<u8>,
    data: ProtectedData,
)
    requires
        call_ensures(
            ProtectedData::from_raw,
            (salt, nonce, dek_nonce, encrypted_dek, ciphertext),
            data,
        ),
    ensures
        data.salt@ == hex_text(salt@),
        data.nonce@ == base64_text(nonce@),
        data.dek_nonce@ == base64_text(dek_nonce@),
        data.encrypted_dek@ == base64_text(encrypted_dek@),
        data.ciphertext@ == base64_text(ciphertext@),
        data.version == 1,
{
}

/// A record that is read is the one that its bytes are written as, up to the case of the salt; so
/// a salt of anything but 16 bytes, or a nonce of anything but 12, is not read.
pub proof fn reading_takes_fields_whole(data: &ProtectedData, raw: RawData)
    requires
        call_ensures(ProtectedData::to_raw, (data,), Ok::<RawData, VaultError>(raw)),
    ensures
        hex_decoding(data.salt@) == Ok::<Seq<u8>, HexError>(raw.salt@),
        base64_text(raw.nonce@) == data.nonce@,
        base64_text(raw.dek_nonce@) == data.dek_nonce@,
        base64_text(raw.encrypted_dek@) == data.encrypted_dek@,
        base64_text(raw.ciphertext@) == data.ciphertext@,
        raw.salt@.len() == 16,
        raw.nonce@.len() == 12,
        raw.dek_nonce@.len() == 12,
{
}

/// A record is refused for the first field that does not decode, and if all decode, for the first
/// one of the wrong length; for nothing else.
pub proof fn reading_refuses_first_bad_field(data: &ProtectedData, e: VaultError)
    requires
        call_ensures(ProtectedData::to_raw, (data,), Err::<RawData, VaultError>(e)),
    ensures
        match e {
            VaultError::Hex(reason) => hex_decoding(data.salt@) == Err::<Seq<u8>, HexError>(reason),
            VaultError::Base64(reason) => {
                &&& hex_decoding(data.salt@) is Ok
                &&& if !is_base64(data.nonce@) {
                    reason == base64_refusal(data.nonce@)
                } else if !is_base64(data.dek_nonce@) {
                    reason == base64_refusal(data.dek_nonce@)
                } else if !is_base64(data.encrypted_dek@) {
                    reason == base64_refusal(data.encrypted_dek@)
                } else {
                    !is_base64(data.ciphertext@) && reason == base64_refusal(data.ciphertext@)
                }
            },
            VaultError::InvalidLength { field, expected, got } => {
                &&& hex_decoding(data.salt@) matches Ok(salt)
                &&& is_base64(data.encrypted_dek@)
                &&& is_base64(data.ciphertext@)
                &&& exists|nonce: Seq<u8>, dek_nonce: Seq<u8>|
                    #![trigger base64_text(nonce), base64_text(dek_nonce)]
                    {
                        &&& base64_text(nonce) == data.nonce@
                        &&& base64_text(dek_nonce) == data.dek_nonce@
                        &&& if salt.len() != 16 {
                            field@ == "salt"@ && expected == 16 && got == salt.len()
                        } else if nonce.len() != 12 {
                            field@ == "nonce"@ && expected == 12 && got == nonce.len()
                        } else {
                            &&& dek_nonce.len() != 12
                            &&& field@ == "dek_nonce"@
                            &&& expected == 12
                            &&& got == dek_nonce.len()
                        }
                    }
            },
            _ => false,
        },
{
    lemma_base64_decoding(data.nonce@);
    lemma_base64_decoding(data.dek_nonce@);
    lemma_base64_decoding(data.encrypted_dek@);
    lemma_base64_decoding(data.ciphertext@);
    if e is InvalidLength {
        let nonce = base64_decoding(data.nonce@)->Ok_0;
        let dek_nonce = base64_decoding(data.dek_nonce@)->Ok_0;
        assert(base64_text(nonce) == data.nonce@);
        assert(base64_text(dek_nonce) == data.dek_nonce@);
    }
}

/// Reading gives back the bytes that were written.
pub proof fn reading_undoes_writing(
    salt: &[u8; 16],
    nonce: &[u8; 12],
    dek_nonce: &[u8; 12],
    encrypted_dek: Vec<u8>,
    ciphertext: Vec<u8>,
    data: ProtectedData,
    r: Result<RawData, VaultError>,
)
    requires
        call_ensures(
            ProtectedData::from_raw,
            (salt, nonce, dek_nonce, encrypted_dek, ciphertext),
            data,
        ),
        call_ensures(ProtectedData::to_raw, (&data,), r),
    ensures
        r matches Ok(raw) && raw.salt@ == salt@ && raw.nonce@ == nonce@ && raw.dek_nonce@
            == dek_nonce@ && raw.encrypted_dek@ == encrypted_dek@ && raw.ciphertext@ == ciphertext@,
{
    crate::crypto::parsed_record(
        RawFields {
            salt: salt@,
            nonce: nonce@,
            dek_nonce: dek_nonce@,
            encrypted_dek: encrypted_dek@,
            ciphertext: ciphertext@,
        },
    );
}

// ---------------------------------------------------------------------------------------------
// The vault
// ---------------------------------------------------------------------------------------------

/// Sealing encrypts the text under the given key, with `DATA`, the salt, the nonce and the version
/// as associated data, and that key under the hash of the password, with `DEK`; the record is these
/// in their encodings. It fails only where the text or the password is too long.
pub proof fn sealing_encrypts_text_and_key(
    plaintext: &str,
    password: &str,
    dek: &SecretKey,
    salt: &[u8; 16],
    nonce: &[u8; 12],
    dek_nonce: &[u8; 12],
    r: Result<ProtectedData, VaultError>,
)
    requires
        call_ensures(Vault::encrypt_with, (plaintext, password, dek, salt, nonce, dek_nonce), r),
    ensures
        match r {
            Ok(data) => {
                &&& encode_utf8(plaintext@).len() <= 0x10_0000_0000
                &&& encode_utf8(password@).len() <= 0xFFFF_FFFF
                &&& data.salt@ == hex_text(salt@)
                &&& data.nonce@ == base64_text(nonce@)
                &&& data.dek_nonce@ == base64_text(dek_nonce@)
                &&& data.encrypted_dek@ == base64_text(
                    gcm_ciphertext(
                        argon2id(65536, 3, 1, encode_utf8(password@), salt@, 32),
                        dek_nonce@,
                        seq![0x44u8, 0x45u8, 0x4Bu8],
                        dek.bytes@,
                    ),
                )
                &&& data.ciphertext@ == base64_text(
                    gcm_ciphertext(
                        dek.bytes@,
                        nonce@,
                        seq![0x44u8, 0x41u8, 0x54u8, 0x41u8] + salt@ + nonce@ + seq![1u8],
                        encode_utf8(plaintext@),
                    ),
                )
                &&& data.version == 1
            },
            Err(VaultError::Encryption) => encode_utf8(plaintext@).len() > 0x10_0000_0000,
            Err(VaultError::KeyDerivation(reason)) => {
                &&& encode_utf8(plaintext@).len() <= 0x10_0000_0000
                &&& encode_utf8(password@).len() > 0xFFFF_FFFF
                &&& reason@ == "password is too long"@
            },
            Err(_) => false,
        },
{
}

/// A text is sealed with a key, a salt and nonces from the generator, each from a draw of its own,
/// as [`sealing_encrypts_text_and_key`] has it of given ones.
pub proof fn sealing_draws_its_values(
    plaintext: &str,
    password: &str,
    r: Result<ProtectedData, VaultError>,
)
    requires
        call_ensures(Vault::encrypt, (plaintext, password), r),
    ensures
        match r {
            Ok(data) => {
                &&& encode_utf8(plaintext@).len() <= 0x10_0000_0000
                &&& encode_utf8(password@).len() <= 0xFFFF_FFFF
                &&& data.version == 1
                &&& exists|
                    before1: Seq<u8>,
                    before2: Seq<u8>,
                    before3: Seq<u8>,
                    dek: Seq<u8>,
                    salt: Seq<u8>,
                    nonce: Seq<u8>,
                    dek_nonce: Seq<u8>,
                |
                    {
                        &&& #[trigger] drawn_over(before1, dek)
                        &&& #[trigger] drawn_over(before2, salt)
                        &&& #[trigger] drawn_over(before3, nonce)
                        &&& #[trigger] drawn_over(nonce, dek_nonce)
                        &&& dek.len() == 32
                        &&& salt.len() == 16
                        &&& nonce.len() == 12
                        &&& dek_nonce.len() == 12
                        &&& data.salt@ == hex_text(salt)
                        &&& data.nonce@ == base64_text(nonce)
                        &&& data.dek_nonce@ == base64_text(dek_nonce)
                        &&& data.encrypted_dek@ == base64_text(
                            gcm_ciphertext(
                                argon2id(65536, 3, 1, encode_utf8(password@), salt, 32),
                                dek_nonce,
                                seq![0x44u8, 0x45u8, 0x4Bu8],
                                dek,
                            ),
                        )
                        &&& data.ciphertext@ == base64_text(
                            gcm_ciphertext(
                                dek,
                                nonce,
                                seq![0x44u8, 0x41u8, 0x54u8, 0x41u8] + salt + nonce + seq![1u8],
                                encode_utf8(plaintext@),
                            ),
                        )
                    }
            },
            Err(VaultError::Encryption) => encode_utf8(plaintext@).len() > 0x10_0000_0000,
            Err(VaultError::KeyDerivation(reason)) => {
                &&& encode_utf8(plaintext@).len() <= 0x10_0000_0000
                &&& encode_utf8(password@).len() > 0xFFFF_FFFF
                &&& reason@ == "password is too long"@
            },
            Err(_) => false,
        },
{
    let (dek, salt, nonce, dek_nonce) = choose|
        dek: Seq<u8>,
        salt: Seq<u8>,
        nonce: Seq<u8>,
        dek_nonce: Seq<u8>,
    | #[trigger]
        are_draws(dek, salt, nonce, dek_nonce) && outcome(r) == sealed(
            plaintext@,
            password@,
            dek,
            salt,
            nonce,
            dek_nonce,
        );
    let before1 = choose|before: Seq<u8>| #[trigger] drawn_over(before, dek);
    let before2 = choose|before: Seq<u8>| #[trigger] drawn_over(before, salt);
    let before3 = choose|before: Seq<u8>| #[trigger] drawn_over(before, nonce);
    assert(drawn_over(before1, dek));
    assert(drawn_over(before2, salt));
    assert(drawn_over(before3, nonce));
    assert(drawn_over(nonce, dek_nonce));
}

/// A record opens to a text only if it can be read, and the whole password hashes, with its salt, to
/// a key under which the encrypted key of the record is that of a key, under which the ciphertext is
/// that of the very text, with the salt, the nonce and the version of the record as associated data.
pub proof fn opening_needs_password_and_header(
    data: &ProtectedData,
    password: &str,
    read: Result<RawData, VaultError>,
    text: SecretText,
)
    requires
        call_ensures(ProtectedData::to_raw, (data,), read),
        call_ensures(Vault::decrypt, (data, password), Ok::<SecretText, VaultError>(text)),
    ensures
        encode_utf8(password@).len() <= 0xFFFF_FFFF,
        read matches Ok(raw) && exists|dek: Seq<u8>|
            {
                &&& #[trigger] dek.len() == 32
                &&& gcm_ciphertext(
                    argon2id(65536, 3, 1, encode_utf8(password@), raw.salt@, 32),
                    raw.dek_nonce@,
                    seq![0x44u8, 0x45u8, 0x4Bu8],
                    dek,
                ) == raw.encrypted_dek@
                &&& gcm_ciphertext(
                    dek,
                    raw.nonce@,
                    seq![0x44u8, 0x41u8, 0x54u8, 0x41u8] + raw.salt@ + raw.nonce@ + seq![
                        data.version,
                    ],
                    encode_utf8(text@),
                ) == raw.ciphertext@
            },
{
    let (raw, kek, dek) = lemma_opened(data@, password@, text@);
    assert(read->Ok_0@ == raw);
    assert(dek.len() == 32);
    assert(gcm_ciphertext(kek, raw.dek_nonce, seq![0x44u8, 0x45u8, 0x4Bu8], dek)
        == raw.encrypted_dek);
    assert(gcm_ciphertext(
        dek,
        raw.nonce,
        seq![0x44u8, 0x41u8, 0x54u8, 0x41u8] + raw.salt + raw.nonce + seq![data.version],
        encode_utf8(text@),
    ) == raw.ciphertext);
}

/// What an opened record holds, with its Base64 fields.
proof fn lemma_opened(record: Record, password: Seq<char>, text: Seq<char>) -> (r: (
    RawFields,
    Seq<u8>,
    Seq<u8>,
))
    requires
        opened(record, password) == Ok::<Seq<char>, Failure>(text),
    ensures
        parsed(record) == Ok::<RawFields, Failure>(r.0),
        derived_key(password, r.0.salt) == Ok::<Seq<u8>, Failure>(r.1),
        is_opening(r.0, record.version, password, r.2, encode_utf8(text)),
        base64_text(r.0.nonce) == record.nonce,
        base64_text(r.0.dek_nonce) == record.dek_nonce,
        base64_text(r.0.encrypted_dek) == record.encrypted_dek,
        base64_text(r.0.ciphertext) == record.ciphertext,
{
    opened_only_if_sealed(record, password, text);
    let raw = parsed(record)->Ok_0;
    let kek = derived_key(password, raw.salt)->Ok_0;
    let dek = choose|dek: Seq<u8>|
        {
            &&& dek.len() == 32
            &&& #[trigger] is_sealing(kek, raw.dek_nonce, dek_context(), dek, raw.encrypted_dek)
            &&& is_sealing(
                dek,
                raw.nonce,
                aad_of(data_context(), raw.salt, raw.nonce, record.version),
                encode_utf8(text),
                raw.ciphertext,
            )
        };
    lemma_base64_decoding(record.nonce);
    lemma_base64_decoding(record.dek_nonce);
    lemma_base64_decoding(record.encrypted_dek);
    lemma_base64_decoding(record.ciphertext);
    (raw, kek, dek)
}

/// A record in which `bytes` are encrypted under a key, and that key under the hash of the
/// password, opens to the text that `bytes` are, and is refused just if they are none.
pub proof fn encrypted_bytes_are_opened(
    data: &ProtectedData,
    password: &str,
    salt: Seq<u8>,
    nonce: Seq<u8>,
    dek_nonce: Seq<u8>,
    dek: Seq<u8>,
    bytes: Seq<u8>,
    r: Result<SecretText, VaultError>,
)
    requires
        call_ensures(Vault::decrypt, (data, password), r),
        encode_utf8(password@).len() <= 0xFFFF_FFFF,
        hex_decoding(data.salt@) == Ok::<Seq<u8>, HexError>(salt),
        salt.len() == 16,
        base64_text(nonce) == data.nonce@,
        nonce.len() == 12,
        base64_text(dek_nonce) == data.dek_nonce@,
        dek_nonce.len() == 12,
        dek.len() == 32,
        bytes.len() <= 0x10_0000_0010,
        base64_text(
            gcm_ciphertext(
                argon2id(65536, 3, 1, encode_utf8(password@), salt, 32),
                dek_nonce,
                seq![0x44u8, 0x45u8, 0x4Bu8],
                dek,
            ),
        ) == data.encrypted_dek@,
        base64_text(
            gcm_ciphertext(
                dek,
                nonce,
                seq![0x44u8, 0x41u8, 0x54u8, 0x41u8] + salt + nonce + seq![data.version],
                bytes,
            ),
        ) == data.ciphertext@,
    ensures
        match r {
            Ok(text) => valid_utf8(bytes) && text@ == decode_utf8(bytes),
            Err(e) => !valid_utf8(bytes) && e is InvalidUtf8,
        },
{
    let encrypted_dek = gcm_ciphertext(
        argon2id(65536, 3, 1, encode_utf8(password@), salt, 32),
        dek_nonce,
        seq![0x44u8, 0x45u8, 0x4Bu8],
        dek,
    );
    let ciphertext = gcm_ciphertext(
        dek,
        nonce,
        seq![0x44u8, 0x41u8, 0x54u8, 0x41u8] + salt + nonce + seq![data.version],
        bytes,
    );
    base64_canonical(data.nonce@, nonce);
    base64_canonical(data.dek_nonce@, dek_nonce);
    base64_canonical(data.encrypted_dek@, encrypted_dek);
    base64_canonical(data.ciphertext@, ciphertext);
    let raw = RawFields { salt, nonce, dek_nonce, encrypted_dek, ciphertext };
    assert(parsed(data@) == Ok::<RawFields, Failure>(raw));
    assert(is_opening(raw, data.version, password@, dek, bytes));
}

/// A record is not opened for one of these reasons only: it cannot be read; the password is too
/// long to be hashed; what is encrypted in it is no text; or nothing is encrypted in it under that
/// password.
pub proof fn opening_fails_for_a_reason(
    data: &ProtectedData,
    password: &str,
    read: Result<RawData, VaultError>,
    e: VaultError,
)
    requires
        call_ensures(ProtectedData::to_raw, (data,), read),
        call_ensures(Vault::decrypt, (data, password), Err::<SecretText, VaultError>(e)),
    ensures
        match read {
            Err(reason) => match (e, reason) {
                (VaultError::Hex(e1), VaultError::Hex(e2)) => e1 == e2,
                (VaultError::Base64(e1), VaultError::Base64(e2)) => e1 == e2,
                (
                    VaultError::InvalidLength { field: field1, expected: expected1, got: got1 },
                    VaultError::InvalidLength { field: field2, expected: expected2, got: got2 },
                ) => field1@ == field2@ && expected1 == expected2 && got1 == got2,
                _ => false,
            },
            Ok(raw) => if encode_utf8(password@).len() > 0xFFFF_FFFF {
                e matches VaultError::KeyDerivation(reason) && reason@ == "password is too long"@
            } else {
                ||| e is Decryption
                ||| e is InvalidUtf8 && exists|dek: Seq<u8>, bytes: Seq<u8>|
                    #![trigger dek.len(), valid_utf8(bytes)]
                    {
                        &&& dek.len() == 32
                        &&& gcm_ciphertext(
                            argon2id(65536, 3, 1, encode_utf8(password@), raw.salt@, 32),
                            raw.dek_nonce@,
                            seq![0x44u8, 0x45u8, 0x4Bu8],
                            dek,
                        ) == raw.encrypted_dek@
                        &&& gcm_ciphertext(
                            dek,
                            raw.nonce@,
                            seq![0x44u8, 0x41u8, 0x54u8, 0x41u8] + raw.salt@ + raw.nonce@ + seq![
                                data.version,
                            ],
                            bytes,
                        ) == raw.ciphertext@
                        &&& !valid_utf8(bytes)
                    }
            },
        },
{
    if read is Ok && encode_utf8(password@).len() <= 0xFFFF_FFFF && e is InvalidUtf8 {
        let raw = read->Ok_0@;
        let kek = argon2id(65536, 3, 1, encode_utf8(password@), raw.salt, 32);
        let dek = unsealed(kek, raw.dek_nonce, dek_context(), raw.encrypted_dek)->0;
        let aad = aad_of(data_context(), raw.salt, raw.nonce, data.version);
        let bytes = unsealed(dek, raw.nonce, aad, raw.ciphertext)->0;
        assert(is_sealing(kek, raw.dek_nonce, dek_context(), dek, raw.encrypted_dek));
        assert(is_sealing(dek, raw.nonce, aad, bytes, raw.ciphertext));
        assert(gcm_ciphertext(kek, raw.dek_nonce, seq![0x44u8, 0x45u8, 0x4Bu8], dek)
            == raw.encrypted_dek);
        assert(gcm_ciphertext(
            dek,
            raw.nonce,
            seq![0x44u8, 0x41u8, 0x54u8, 0x41u8] + raw.salt + raw.nonce + seq![data.version],
            bytes,
        ) == raw.ciphertext);
    }
}

/// An encrypted key of anything but 48 bytes, or a ciphertext without room for a tag, is refused as
/// not decrypting.
pub proof fn opening_refuses_impossible_sizes(
    data: &ProtectedData,
    password: &str,
    raw: RawData,
    r: Result<SecretText, VaultError>,
)
    requires
        call_ensures(ProtectedData::to_raw, (data,), Ok::<RawData, VaultError>(raw)),
        call_ensures(Vault::decrypt, (data, password), r),
        encode_utf8(password@).len() <= 0xFFFF_FFFF,
        raw.encrypted_dek@.len() != 48 || raw.ciphertext@.len() < 16,
    ensures
        r matches Err(e) && e is Decryption,
{
}

/// What was sealed under a password opens to the same text under it, whatever was drawn.
pub proof fn opening_undoes_sealing(
    plaintext: &str,
    password: &str,
    data: ProtectedData,
    r: Result<SecretText, VaultError>,
)
    requires
        call_ensures(
            Vault::encrypt,
            (plaintext, password),
            Ok::<ProtectedData, VaultError>(data),
        ),
        call_ensures(Vault::decrypt, (&data, password), r),
    ensures
        r matches Ok(text) && text@ == plaintext@,
{
}

/// What was sealed under a password with given values opens to the same text under it.
pub proof fn opening_undoes_sealing_with(
    plaintext: &str,
    password: &str,
    dek: &SecretKey,
    salt: &[u8; 16],
    nonce: &[u8; 12],
    dek_nonce: &[u8; 12],
    data: ProtectedData,
    r: Result<SecretText, VaultError>,
)
    requires
        call_ensures(
            Vault::encrypt_with,
            (plaintext, password, dek, salt, nonce, dek_nonce),
            Ok::<ProtectedData, VaultError>(data),
        ),
        call_ensures(Vault::decrypt, (&data, password), r),
    ensures
        r matches Ok(text) && text@ == plaintext@,
{
}

/// A record that was sealed under one password opens under another only if the hash of the other,
/// too, is a key under which the encrypted key is that of some key.
pub proof fn another_password_needs_another_key(
    plaintext: &str,
    password1: &str,
    password2: &str,
    dek: &SecretKey,
    salt: &[u8; 16],
    nonce: &[u8; 12],
    dek_nonce: &[u8; 12],
    data: ProtectedData,
    text: SecretText,
)
    requires
        call_ensures(
            Vault::encrypt_with,
            (plaintext, password1, dek, salt, nonce, dek_nonce),
            Ok::<ProtectedData, VaultError>(data),
        ),
        call_ensures(Vault::decrypt, (&data, password2), Ok::<SecretText, VaultError>(text)),
    ensures
        exists|other: Seq<u8>|
            {
                &&& #[trigger] other.len() == 32
                &&& gcm_ciphertext(
                    argon2id(65536, 3, 1, encode_utf8(password2@), salt@, 32),
                    dek_nonce@,
                    seq![0x44u8, 0x45u8, 0x4Bu8],
                    other,
                ) == gcm_ciphertext(
                    argon2id(65536, 3, 1, encode_utf8(password1@), salt@, 32),
                    dek_nonce@,
                    seq![0x44u8, 0x45u8, 0x4Bu8],
                    dek.bytes@,
                )
            },
{
    let sealed_dek = gcm_ciphertext(
        argon2id(65536, 3, 1, encode_utf8(password1@), salt@, 32),
        dek_nonce@,
        seq![0x44u8, 0x45u8, 0x4Bu8],
        dek.bytes@,
    );
    let (raw, kek, other) = lemma_opened(data@, password2@, text@);
    hex_round_trip(salt@);
    base64_injective(raw.dek_nonce, dek_nonce@);
    base64_injective(raw.encrypted_dek, sealed_dek);
    assert(gcm_ciphertext(kek, dek_nonce@, seq![0x44u8, 0x45u8, 0x4Bu8], other) == sealed_dek);
}

/// The key of a text is taken over whole, and only if it has 32 bytes.
pub proof fn keys_are_taken_whole(unsealed: Option<Vec<u8>>, r: Result<SecretKey, VaultError>)
    requires
        call_ensures(Vault::take_dek, (unsealed,), r),
    ensures
        match r {
            Ok(key) => unsealed matches Some(bytes) && bytes@.len() == 32 && key.bytes@ == bytes@,
            Err(e) => e is Decryption && (unsealed matches Some(bytes) ==> bytes@.len() != 32),
        },
{
}

/// A text is taken over whole, and only if it is UTF-8.
pub proof fn texts_are_taken_whole(unsealed: Option<Vec<u8>>, r: Result<SecretText, VaultError>)
    requires
        call_ensures(Vault::take_text, (unsealed,), r),
    ensures
        match unsealed {
            None => r matches Err(e) && e is Decryption,
            Some(bytes) => match r {
                Ok(text) => valid_utf8(bytes@) && encode_utf8(text@) == bytes@,
                Err(e) => !valid_utf8(bytes@) && e is InvalidUtf8,
            },
        },
{
    if let Some(bytes) = unsealed {
        if valid_utf8(bytes@) {
            vstd::utf8::decode_utf8_encode_utf8(bytes@);
        }
    }
}

/// A record fits just if the Base64 of its ciphertext, four characters for three bytes, is no
/// longer than memory allows.
pub proof fn records_fit_by_their_ciphertext(len: usize, fits: bool)
    requires
        call_ensures(Vault::record_fits, (len,), fits),
    ensures
        fits <==> 4 * ((len + 16 + 2) / 3) <= isize::MAX,
{
}

// ---------------------------------------------------------------------------------------------
// Words
// ---------------------------------------------------------------------------------------------

/// The number that decimal digits stand for.
pub open spec fn number_of(digits: Seq<char>) -> int
    decreases digits.len(),
{
    if digits.len() == 0 {
        0
    } else {
        10 * number_of(digits.drop_last()) + (digits.last() as int - '0' as int)
    }
}

/// A number is written in decimal digits that stand for it, without a leading zero.
pub proof fn decimal_reads_back(n: nat)
    ensures
        number_of(decimal(n)) == n,
        decimal(n).len() > 0,
        forall|i: int| 0 <= i < decimal(n).len() ==> '0' <= #[trigger] decimal(n)[i] <= '9',
        decimal(n)[0] == '0' ==> n == 0 && decimal(n).len() == 1,
    decreases n,
{
    if n < 10 {
        assert(decimal(n).drop_last() =~= Seq::<char>::empty());
        assert(number_of(decimal(n).drop_last()) == 0);
    } else {
        decimal_reads_back(n / 10);
        assert(decimal(n).drop_last() =~= decimal(n / 10));
    }
}

/// Every error has its own sentence, with the particulars in it.
pub proof fn errors_say_what_happened(e: VaultError, text: String)
    requires
        call_ensures(VaultError::message, (&e,), text),
    ensures
        match e {
            VaultError::KeyDerivation(reason) => text@ == "Argon2 key derivation failed: "@
                + reason@,
            VaultError::Encryption => text@ == "Encryption failed"@,
            VaultError::Decryption => text@
                == "Decryption failed: wrong password or corrupted data"@,
            VaultError::InvalidUtf8 => text@ == "Invalid UTF-8 in decrypted plaintext"@,
            VaultError::Base64(Base64Error::InvalidByte(offset, byte)) => text@
                == "Base64 decode error: "@ + ("Invalid symbol "@ + decimal(byte as nat)
                + ", offset "@ + decimal(offset as nat) + "."@),
            VaultError::Base64(Base64Error::InvalidLength(len)) => text@
                == "Base64 decode error: "@ + ("Invalid input length: "@ + decimal(len as nat)),
            VaultError::Base64(Base64Error::InvalidLastSymbol(offset, byte)) => text@
                == "Base64 decode error: "@ + ("Invalid last symbol "@ + decimal(byte as nat)
                + ", offset "@ + decimal(offset as nat) + "."@),
            VaultError::Base64(Base64Error::InvalidPadding) => text@ == "Base64 decode error: "@
                + "Invalid padding"@,
            VaultError::Hex(HexError::InvalidHexCharacter { c, index }) => text@
                == "Hex decode error: "@ + ("Invalid character "@ + char_literal(c)
                + " at position "@ + decimal(index as nat)),
            VaultError::Hex(HexError::OddLength) => text@ == "Hex decode error: "@
                + "Odd number of digits"@,
            VaultError::Hex(HexError::InvalidStringLength) => text@ == "Hex decode error: "@
                + "Invalid string length"@,
            VaultError::InvalidLength { field, expected, got } => text@
                == "Invalid data length for field '"@ + field@ + "': expected "@ + decimal(
                expected as nat,
            ) + ", got "@ + decimal(got as nat),
        },
{
}

/// Bytes become an array of the same bytes just if there are as many as it holds.
pub proof fn arrays_take_their_length<const N: usize>(bytes: &[u8], r: Option<[u8; N]>)
    requires
        call_ensures(to_array::<N>, (bytes,), r),
    ensures
        r is Some <==> bytes@.len() == N,
        r matches Some(a) ==> a@ == bytes@,
{
}

/// A secret text is the text that it was made from.
pub proof fn secret_texts_are_kept(text: String, secret: SecretText, s: &str)
    requires
        call_ensures(SecretText::new, (text,), secret),
        call_ensures(SecretText::as_str, (&secret,), s),
    ensures
        s@ == text@,
{
}

// ---------------------------------------------------------------------------------------------
// The service
// ---------------------------------------------------------------------------------------------

/// A failure to decrypt is answered with 401, one to derive a key with 500, any other with 400, and
/// none with success; only the last kind is told in full. The log is told in full of each.
pub proof fn failures_have_their_status<T>(e: VaultError, text: String, reply: Reply<T>)
    requires
        call_ensures(VaultError::message, (&e,), text),
        call_ensures(vault_error_response::<T>, (e,), reply),
    ensures
        reply.cause matches Some(cause) && cause@ == text@,
        reply.body matches Err(body) && match e {
            VaultError::Decryption => {
                &&& reply.status == 401
                &&& body.error@ == "Decryption failed"@
                &&& body.code@ == "DECRYPTION_FAILED"@
            },
            VaultError::KeyDerivation(_) => {
                &&& reply.status == 500
                &&& body.error@ == "Internal error"@
                &&& body.code@ == "KEY_DERIVATION_ERROR"@
            },
            _ => {
                &&& reply.status == 400
                &&& body.error@ == text@
                &&& body.code@ == "VAULT_ERROR"@
            },
        },
{
}

/// A record that was sealed is sent as it is, with 200; a failure is answered as
/// that error is.
pub proof fn sealing_is_answered(
    result: Result<ProtectedData, VaultError>,
    reply: Reply<EncryptResponse>,
    failed: Reply<EncryptResponse>,
)
    requires
        call_ensures(encrypt_reply, (result,), reply),
        result matches Err(e) ==> call_ensures(
            vault_error_response::<EncryptResponse>,
            (e,),
            failed,
        ),
    ensures
        match result {
            Ok(data) => {
                &&& reply.status == 200
                &&& reply.cause is None
                &&& reply.body matches Ok(response)
                &&& response.data == data
            },
            Err(e) => {
                &&& reply.body matches Err(body)
                &&& reply.status == if e is Decryption {
                    401u16
                } else if e is KeyDerivation {
                    500u16
                } else {
                    400u16
                }
                &&& failed.body matches Err(other)
                &&& body.error@ == other.error@
                &&& body.code@ == other.code@
                &&& reply.cause matches Some(cause)
                &&& failed.cause matches Some(other_cause)
                &&& cause@ == other_cause@
            },
        },
{
}

/// A text that was opened is sent as it is, with 200; a failure is answered as
/// that error is.
pub proof fn opening_is_answered(
    result: Result<SecretText, VaultError>,
    reply: Reply<DecryptResponse>,
    failed: Reply<DecryptResponse>,
)
    requires
        call_ensures(decrypt_reply, (result,), reply),
        result matches Err(e) ==> call_ensures(
            vault_error_response::<DecryptResponse>,
            (e,),
            failed,
        ),
    ensures
        match result {
            Ok(text) => {
                &&& reply.status == 200
                &&& reply.cause is None
                &&& reply.body matches Ok(response)
                &&& response.plaintext@ == text@
            },
            Err(e) => {
                &&& reply.body matches Err(body)
                &&& reply.status == if e is Decryption {
                    401u16
                } else if e is KeyDerivation {
                    500u16
                } else {
                    400u16
                }
                &&& failed.body matches Err(other)
                &&& body.error@ == other.error@
                &&& body.code@ == other.code@
                &&& reply.cause matches Some(cause)
                &&& failed.cause matches Some(other_cause)
                &&& cause@ == other_cause@
            },
        },
{
}

/// `POST /decrypt` answers what opening the record with the master password comes to.
pub proof fn decrypt_requests_open(
    state: &AppState,
    req: DecryptRequest,
    password: &str,
    result: Result<SecretText, VaultError>,
    reply: Reply<DecryptResponse>,
    failed: Reply<DecryptResponse>,
)
    requires
        password@ == state.master_password@,
        call_ensures(Vault::decrypt, (&req.data, password), result),
        call_ensures(decrypt_handler, (state, req), reply),
        result matches Err(e) ==> call_ensures(
            vault_error_response::<DecryptResponse>,
            (e,),
            failed,
        ),
    ensures
        match result {
            Ok(text) => {
                &&& reply.status == 200
                &&& reply.cause is None
                &&& reply.body matches Ok(response)
                &&& response.plaintext@ == text@
            },
            Err(e) => {
                &&& reply.body matches Err(body)
                &&& reply.status == if e is Decryption {
                    401u16
                } else if e is KeyDerivation {
                    500u16
                } else {
                    400u16
                }
                &&& failed.body matches Err(other)
                &&& body.error@ == other.error@
                &&& body.code@ == other.code@
                &&& reply.cause matches Some(cause)
                &&& failed.cause matches Some(other_cause)
                &&& cause@ == other_cause@
            },
        },
{
}

/// `POST /decrypt` answers 400, with the error in words, to a record that cannot be read.
pub proof fn unreadable_records_are_bad_requests(
    state: &AppState,
    req: DecryptRequest,
    e: VaultError,
    text: String,
    reply: Reply<DecryptResponse>,
)
    requires
        call_ensures(ProtectedData::to_raw, (&req.data,), Err::<RawData, VaultError>(e)),
        call_ensures(VaultError::message, (&e,), text),
        call_ensures(decrypt_handler, (state, req), reply),
    ensures
        reply.status == 400,
        reply.body matches Err(body) && body.error@ == text@ && body.code@ == "VAULT_ERROR"@,
{
}

/// `POST /encrypt` seals the text under the master password with values from the generator and
/// answers 200; it answers 400 just to a text that is too long, and 500 just where the password is.
pub proof fn encrypt_requests_seal(
    state: &AppState,
    req: EncryptRequest,
    reply: Reply<EncryptResponse>,
)
    requires
        call_ensures(encrypt_handler, (state, req), reply),
    ensures
        reply.status == if encode_utf8(req.plaintext@).len() > 0x10_0000_0000 {
            400u16
        } else if encode_utf8(state.master_password@).len() > 0xFFFF_FFFF {
            500u16
        } else {
            200u16
        },
        match reply.body {
            Ok(response) => {
                &&& reply.status == 200
                &&& reply.cause is None
                &&& response.data.version == 1
                &&& exists|
                    before1: Seq<u8>,
                    before2: Seq<u8>,
                    before3: Seq<u8>,
                    dek: Seq<u8>,
                    salt: Seq<u8>,
                    nonce: Seq<u8>,
                    dek_nonce: Seq<u8>,
                |
                    {
                        &&& #[trigger] drawn_over(before1, dek)
                        &&& #[trigger] drawn_over(before2, salt)
                        &&& #[trigger] drawn_over(before3, nonce)
                        &&& #[trigger] drawn_over(nonce, dek_nonce)
                        &&& dek.len() == 32
                        &&& salt.len() == 16
                        &&& nonce.len() == 12
                        &&& dek_nonce.len() == 12
                        &&& response.data.salt@ == hex_text(salt)
                        &&& response.data.nonce@ == base64_text(nonce)
                        &&& response.data.dek_nonce@ == base64_text(dek_nonce)
                        &&& response.data.encrypted_dek@ == base64_text(
                            gcm_ciphertext(
                                argon2id(
                                    65536,
                                    3,
                                    1,
                                    encode_utf8(state.master_password@),
                                    salt,
                                    32,
                                ),
                                dek_nonce,
                                seq![0x44u8, 0x45u8, 0x4Bu8],
                                dek,
                            ),
                        )
                        &&& response.data.ciphertext@ == base64_text(
                            gcm_ciphertext(
                                dek,
                                nonce,
                                seq![0x44u8, 0x41u8, 0x54u8, 0x41u8] + salt + nonce + seq![1u8],
                                encode_utf8(req.plaintext@),
                            ),
                        )
                    }
            },
            Err(body) => {
                &&& reply.cause matches Some(cause)
                &&& {
                    ||| {
                        &&& reply.status == 400
                        &&& body.error@ == "Encryption failed"@
                        &&& body.code@ == "VAULT_ERROR"@
                        &&& cause@ == "Encryption failed"@
                    }
                    ||| {
                        &&& reply.status == 500
                        &&& body.error@ == "Internal error"@
                        &&& body.code@ == "KEY_DERIVATION_ERROR"@
                        &&& cause@ == "Argon2 key derivation failed: "@ + "password is too long"@
                    }
                }
            },
        },
{
    if let Ok(response) = reply.body {
        let (dek, salt, nonce, dek_nonce) = choose|
            dek: Seq<u8>,
            salt: Seq<u8>,
            nonce: Seq<u8>,
            dek_nonce: Seq<u8>,
        | #[trigger]
            are_draws(dek, salt, nonce, dek_nonce) && sealed(
                req.plaintext@,
                state.master_password@,
                dek,
                salt,
                nonce,
                dek_nonce,
            ) == Ok::<Record, Failure>(response.data@);
        let before1 = choose|before: Seq<u8>| #[trigger] drawn_over(before, dek);
        let before2 = choose|before: Seq<u8>| #[trigger] drawn_over(before, salt);
        let before3 = choose|before: Seq<u8>| #[trigger] drawn_over(before, nonce);
        assert(drawn_over(before1, dek));
        assert(drawn_over(before2, salt));
        assert(drawn_over(before3, nonce));
        assert(drawn_over(nonce, dek_nonce));
    }
}

/// What `POST /encrypt` returned, `POST /decrypt` turns back into the text, under the same master
/// password.
pub proof fn decrypt_requests_undo_encrypt_requests(
    state: &AppState,
    req: EncryptRequest,
    reply: Reply<EncryptResponse>,
    back: DecryptRequest,
    answer: Reply<DecryptResponse>,
)
    requires
        call_ensures(encrypt_handler, (state, req), reply),
        reply.body matches Ok(response) && back.data == response.data,
        call_ensures(decrypt_handler, (state, back), answer),
    ensures
        answer.status == 200,
        answer.body matches Ok(response) && response.plaintext@ == req.plaintext@,
{
}

/// A liveness probe is told that the service is up, and its version.
pub proof fn probes_are_answered(version: &'static str, response: HealthResponse)
    requires
        call_ensures(health_handler, (version,), response),
    ensures
        response.status@ == "ok"@,
        response.version@ == version@,
{
}

/// The settings are the values that were set, whole, and the defaults just where none was set; they
/// are refused just for a master password of fewer than 20 bytes.
pub proof fn settings_are_taken_as_set(
    master_password: String,
    bind_addr: Option<String>,
    log_level: Option<String>,
    r: Option<Config>,
)
    requires
        call_ensures(Config::from_values, (master_password, bind_addr, log_level), r),
    ensures
        r is Some <==> encode_utf8(master_password@).len() >= 20,
        r matches Some(config) ==> {
            &&& config.master_password@ == master_password@
            &&& bind_addr matches Some(addr) ==> config.bind_addr@ == addr@
            &&& bind_addr is None ==> config.bind_addr@ == "0.0.0.0:8080"@
            &&& log_level matches Some(level) ==> config.log_level@ == level@
            &&& log_level is None ==> config.log_level@ == "vault_service=info,tower_http=warn"@
        },
{
}

/// The state holds the master password that it was made with.
pub proof fn state_holds_master_password(master_password: SecretText, state: AppState)
    requires
        call_ensures(AppState::new, (master_password,), state),
    ensures
        state.master_password@ == master_password@,
{
}

} // verus!
