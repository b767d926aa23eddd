//! The vault: texts sealed under a master password.
//!
//! A text is encrypted with AES-256-GCM under a key of its own, and that key is encrypted under
//! another one that Argon2id derives from the password. The salt, the nonce and the version of a
//! record are associated data of its ciphertext.

use vstd::prelude::*;
use vstd::utf8::{decode_utf8, encode_utf8, valid_utf8};

use crate::cipher::{
    gcm_ciphertext, is_sealing, seal, unseal, unsealed, MAX_MESSAGE_LEN, MAX_OPENED_LEN, TAG_LEN,
};
use crate::codec::{
    base64_decode, base64_decoding, base64_encode, base64_len, base64_text, hex_decode,
    hex_decoding, hex_encode, hex_text, HexError,
};
use crate::error::{outcome, Failure, VaultError};
use crate::kdf::{argon2_objection, argon2id, argon2id_into, MAX_INPUT_LEN};
use crate::random::{drawn_over, fill_random};
use crate::secret::{wipe_array, wipe_vec, SecretKey, SecretText};
use crate::text::{string_from_utf8, to_array};

verus! {

// ---------------------------------------------------------------------------------------------
// Records
// ---------------------------------------------------------------------------------------------

/// An encrypted text, ready to be stored or sent.
#[derive(Debug, Clone)]
pub struct ProtectedData {
    /// Argon2 salt: 16 bytes in hexadecimal.
    pub salt: String,
    /// Nonce of the text: 12 bytes in Base64.
    pub nonce: String,
    /// Nonce of the encrypted key: 12 bytes in Base64.
    pub dek_nonce: String,
    /// The encrypted key of the text, in Base64.
    pub encrypted_dek: String,
    /// The encrypted text, in Base64.
    pub ciphertext: String,
    /// Version of the record format.
    pub version: u8,
}

/// What a [`ProtectedData`] holds.
#[verifier::ext_equal]
pub struct Record {
    pub salt: Seq<char>,
    pub nonce: Seq<char>,
    pub dek_nonce: Seq<char>,
    pub encrypted_dek: Seq<char>,
    pub ciphertext: Seq<char>,
    pub version: u8,
}

impl View for ProtectedData {
    type V = Record;

    open spec fn view(&self) -> Record {
        Record {
            salt: self.salt@,
            nonce: self.nonce@,
            dek_nonce: self.dek_nonce@,
            encrypted_dek: self.encrypted_dek@,
            ciphertext: self.ciphertext@,
            version: self.version,
        }
    }
}

/// The bytes behind the fields of a record, overwritten when they are dropped.
pub struct RawData {
    pub salt: [u8; 16],
    pub nonce: [u8; 12],
    pub dek_nonce: [u8; 12],
    pub encrypted_dek: Vec<u8>,
    pub ciphertext: Vec<u8>,
}

/// What a [`RawData`] holds.
#[verifier::ext_equal]
pub struct RawFields {
    pub salt: Seq<u8>,
    pub nonce: Seq<u8>,
    pub dek_nonce: Seq<u8>,
    pub encrypted_dek: Seq<u8>,
    pub ciphertext: Seq<u8>,
}

impl View for RawData {
    type V = RawFields;

    open spec fn view(&self) -> RawFields {
        RawFields {
            salt: self.salt@,
            nonce: self.nonce@,
            dek_nonce: self.dek_nonce@,
            encrypted_dek: self.encrypted_dek@,
            ciphertext: self.ciphertext@,
        }
    }
}

/// The fields after they have been overwritten.
pub open spec fn wiped_fields() -> RawFields {
    RawFields {
        salt: Seq::new(16, |i: int| 0u8),
        nonce: Seq::new(12, |i: int| 0u8),
        dek_nonce: Seq::new(12, |i: int| 0u8),
        encrypted_dek: Seq::empty(),
        ciphertext: Seq::empty(),
    }
}

impl Drop for RawData {
    /// Leaves nothing of the fields behind.
    fn drop(&mut self)
        ensures
            final(self)@ == wiped_fields(),
            forall|i: int| 0 <= i < 16 ==> #[trigger] final(self).salt@[i] == 0,
            forall|i: int| 0 <= i < 12 ==> #[trigger] final(self).nonce@[i] == 0,
            forall|i: int| 0 <= i < 12 ==> #[trigger] final(self).dek_nonce@[i] == 0,
            final(self).encrypted_dek@.len() == 0,
            final(self).ciphertext@.len() == 0,
        opens_invariants none
        no_unwind
    {
        wipe_array(&mut self.salt);
        wipe_array(&mut self.nonce);
        wipe_array(&mut self.dek_nonce);
        wipe_vec(&mut self.encrypted_dek);
        wipe_vec(&mut self.ciphertext);
        assert(self@ =~= wiped_fields());
    }
}

/// The record that these bytes are written down as.
pub open spec fn record_of(raw: RawFields) -> Record {
    Record {
        salt: hex_text(raw.salt),
        nonce: base64_text(raw.nonce),
        dek_nonce: base64_text(raw.dek_nonce),
        encrypted_dek: base64_text(raw.encrypted_dek),
        ciphertext: base64_text(raw.ciphertext),
        version: ProtectedData::CURRENT_VERSION,
    }
}

/// The bytes behind a Base64 field.
pub open spec fn base64_field(text: Seq<char>) -> Result<Seq<u8>, Failure> {
    match base64_decoding(text) {
        Ok(bytes) => Ok(bytes),
        Err(e) => Err(Failure::Base64(e)),
    }
}

/// The first field whose number of bytes is wrong, among those that have a fixed one.
pub open spec fn length_failure(raw: RawFields) -> Option<Failure> {
    if raw.salt.len() != 16 {
        Some(Failure::InvalidLength { field: "salt"@, expected: 16, got: raw.salt.len() })
    } else if raw.nonce.len() != 12 {
        Some(Failure::InvalidLength { field: "nonce"@, expected: 12, got: raw.nonce.len() })
    } else if raw.dek_nonce.len() != 12 {
        Some(Failure::InvalidLength { field: "dek_nonce"@, expected: 12, got: raw.dek_nonce.len() })
    } else {
        None
    }
}

/// What a record is read as. Every field is decoded, in order, before any length is looked at.
pub open spec fn parsed(record: Record) -> Result<RawFields, Failure> {
    match hex_decoding(record.salt) {
        Err(e) => Err(Failure::Hex(e)),
        Ok(salt) => match base64_field(record.nonce) {
            Err(f) => Err(f),
            Ok(nonce) => match base64_field(record.dek_nonce) {
                Err(f) => Err(f),
                Ok(dek_nonce) => match base64_field(record.encrypted_dek) {
                    Err(f) => Err(f),
                    Ok(encrypted_dek) => match base64_field(record.ciphertext) {
                        Err(f) => Err(f),
                        Ok(ciphertext) => {
                            let raw = RawFields { salt, nonce, dek_nonce, encrypted_dek, ciphertext };
                            match length_failure(raw) {
                                Some(f) => Err(f),
                                None => Ok(raw),
                            }
                        },
                    },
                },
            },
        },
    }
}

/// Reading a record gives back the bytes that it was written from.
pub proof fn parsed_record(raw: RawFields)
    requires
        length_failure(raw) is None,
    ensures
        parsed(record_of(raw)) == Ok::<RawFields, Failure>(raw),
{
    crate::codec::hex_round_trip(raw.salt);
    crate::codec::base64_round_trip(raw.nonce);
    crate::codec::base64_round_trip(raw.dek_nonce);
    crate::codec::base64_round_trip(raw.encrypted_dek);
    crate::codec::base64_round_trip(raw.ciphertext);
}

/// Decodes a Base64 field.
fn decode_field(text: &str) -> (r: Result<Vec<u8>, VaultError>)
    ensures
        outcome(r) == base64_field(text@),
{
    match base64_decode(text) {
        Ok(bytes) => {
            proof {
                crate::codec::base64_canonical(text@, bytes@);
            }
            Ok(bytes)
        },
        Err(e) => Err(VaultError::Base64(e)),
    }
}

/// Takes a field that must be `N` bytes long.
fn fixed_field<const N: usize>(
    field: &'static str,
    bytes: &Vec<u8>,
) -> (r: Result<[u8; N], VaultError>)
    ensures
        match r {
            Ok(a) => bytes@.len() == N && a@ == bytes@,
            Err(e) => bytes@.len() != N && e@ == (Failure::InvalidLength {
                field: field@,
                expected: N as nat,
                got: bytes@.len(),
            }),
        },
{
    match to_array::<N>(bytes.as_slice()) {
        Some(a) => Ok(a),
        None => Err(VaultError::InvalidLength { field, expected: N, got: bytes.len() }),
    }
}

impl ProtectedData {
    /// The version of the records that are written.
    pub const CURRENT_VERSION: u8 = 1;

    /// Writes the bytes down as a record of the current version.
    pub fn from_raw(
        salt: &[u8; 16],
        nonce: &[u8; 12],
        dek_nonce: &[u8; 12],
        encrypted_dek: Vec<u8>,
        ciphertext: Vec<u8>,
    ) -> (data: Self)
        requires
            base64_len(encrypted_dek@.len()) <= isize::MAX,
            base64_len(ciphertext@.len()) <= isize::MAX,
        ensures
            data@ == record_of(
                RawFields {
                    salt: salt@,
                    nonce: nonce@,
                    dek_nonce: dek_nonce@,
                    encrypted_dek: encrypted_dek@,
                    ciphertext: ciphertext@,
                },
            ),
    {
        ProtectedData {
            salt: hex_encode(salt.as_slice()),
            nonce: base64_encode(nonce.as_slice()),
            dek_nonce: base64_encode(dek_nonce.as_slice()),
            encrypted_dek: base64_encode(encrypted_dek.as_slice()),
            ciphertext: base64_encode(ciphertext.as_slice()),
            version: ProtectedData::CURRENT_VERSION,
        }
    }

    /// Reads the bytes behind the fields.
    pub fn to_raw(&self) -> (r: Result<RawData, VaultError>)
        ensures
            outcome(r) == parsed(self@),
            r matches Ok(raw) ==> {
                &&& hex_decoding(self.salt@) == Ok::<Seq<u8>, HexError>(raw.salt@)
                &&& self.nonce@ == base64_text(raw.nonce@)
                &&& self.dek_nonce@ == base64_text(raw.dek_nonce@)
                &&& self.encrypted_dek@ == base64_text(raw.encrypted_dek@)
                &&& self.ciphertext@ == base64_text(raw.ciphertext@)
            },
    {
        let salt_bytes = match hex_decode(self.salt.as_str()) {
            Ok(bytes) => bytes,
            Err(e) => return Err(VaultError::Hex(e)),
        };
        let nonce_bytes = decode_field(self.nonce.as_str())?;
        let dek_nonce_bytes = decode_field(self.dek_nonce.as_str())?;
        let encrypted_dek = decode_field(self.encrypted_dek.as_str())?;
        let ciphertext = decode_field(self.ciphertext.as_str())?;
        let salt = fixed_field::<16>("salt", &salt_bytes)?;
        let nonce = fixed_field::<12>("nonce", &nonce_bytes)?;
        let dek_nonce = fixed_field::<12>("dek_nonce", &dek_nonce_bytes)?;
        Ok(RawData { salt, nonce, dek_nonce, encrypted_dek, ciphertext })
    }
}

// ---------------------------------------------------------------------------------------------
// The vault
// ---------------------------------------------------------------------------------------------

/// What the ciphertext of a text starts its associated data with.
pub open spec fn data_context() -> Seq<u8> {
    seq![0x44u8, 0x41u8, 0x54u8, 0x41u8]
}

/// The associated data of an encrypted key.
pub open spec fn dek_context() -> Seq<u8> {
    seq![0x44u8, 0x45u8, 0x4Bu8]
}

/// Associated data: the context, the salt, the nonce and the version, one after the other.
pub open spec fn aad_of(context: Seq<u8>, salt: Seq<u8>, nonce: Seq<u8>, version: u8) -> Seq<u8> {
    context + salt + nonce + seq![version]
}

/// The key that a password gives with a salt.
pub open spec fn derived_key(password: Seq<char>, salt: Seq<u8>) -> Result<Seq<u8>, Failure> {
    match argon2_objection(encode_utf8(password), salt) {
        Some(reason) => Err(Failure::KeyDerivation(reason)),
        None => Ok(
            argon2id(
                Vault::ARGON2_MEM_KIB,
                Vault::ARGON2_TIME,
                Vault::ARGON2_PARALLEL,
                encode_utf8(password),
                salt,
                32,
            ),
        ),
    }
}

/// The record of `plaintext` under `password`, with the given key, salt and nonces.
pub open spec fn sealed(
    plaintext: Seq<char>,
    password: Seq<char>,
    dek: Seq<u8>,
    salt: Seq<u8>,
    nonce: Seq<u8>,
    dek_nonce: Seq<u8>,
) -> Result<Record, Failure> {
    if encode_utf8(plaintext).len() > MAX_MESSAGE_LEN {
        Err(Failure::Encryption)
    } else {
        match derived_key(password, salt) {
            Err(f) => Err(f),
            Ok(kek) => Ok(
                record_of(
                    RawFields {
                        salt,
                        nonce,
                        dek_nonce,
                        encrypted_dek: gcm_ciphertext(kek, dek_nonce, dek_context(), dek),
                        ciphertext: gcm_ciphertext(
                            dek,
                            nonce,
                            aad_of(data_context(), salt, nonce, ProtectedData::CURRENT_VERSION),
                            encode_utf8(plaintext),
                        ),
                    },
                ),
            ),
        }
    }
}

/// Why a text cannot be sealed under a password, whatever is drawn, if it cannot.
pub open spec fn sealing_failure(plaintext: Seq<char>, password: Seq<char>) -> Option<Failure> {
    if encode_utf8(plaintext).len() > MAX_MESSAGE_LEN {
        Some(Failure::Encryption)
    } else if encode_utf8(password).len() > MAX_INPUT_LEN {
        Some(Failure::KeyDerivation("password is too long"@))
    } else {
        None
    }
}

/// The key of a text, from what its encryption was unsealed to.
pub open spec fn dek_of(unsealed: Option<Seq<u8>>) -> Result<Seq<u8>, Failure> {
    match unsealed {
        Some(bytes) if bytes.len() == 32 => Ok(bytes),
        _ => Err(Failure::Decryption),
    }
}

/// The text, from what its encryption was unsealed to.
pub open spec fn text_of(unsealed: Option<Seq<u8>>) -> Result<Seq<char>, Failure> {
    match unsealed {
        None => Err(Failure::Decryption),
        Some(bytes) => if valid_utf8(bytes) {
            Ok(decode_utf8(bytes))
        } else {
            Err(Failure::InvalidUtf8)
        },
    }
}

/// The text behind the fields of a record of the given version.
pub open spec fn opened_raw(
    raw: RawFields,
    version: u8,
    password: Seq<char>,
) -> Result<Seq<char>, Failure> {
    match derived_key(password, raw.salt) {
        Err(f) => Err(f),
        Ok(kek) => match dek_of(
            unsealed(kek, raw.dek_nonce, dek_context(), raw.encrypted_dek),
        ) {
            Err(f) => Err(f),
            Ok(dek) => text_of(
                unsealed(
                    dek,
                    raw.nonce,
                    aad_of(data_context(), raw.salt, raw.nonce, version),
                    raw.ciphertext,
                ),
            ),
        },
    }
}

/// What a record is opened to under a password.
pub open spec fn opened(record: Record, password: Seq<char>) -> Result<Seq<char>, Failure> {
    match parsed(record) {
        Err(f) => Err(f),
        Ok(raw) => opened_raw(raw, record.version, password),
    }
}

/// The record of a text of `len` bytes can be held in memory: its longest field is no longer than
/// an allocation may be.
pub open spec fn fits_in_memory(len: nat) -> bool {
    base64_len(len + TAG_LEN as nat) <= isize::MAX
}

/// The lengths of a key, a salt and two nonces.
pub open spec fn drawn_lengths(
    dek: Seq<u8>,
    salt: Seq<u8>,
    nonce: Seq<u8>,
    dek_nonce: Seq<u8>,
) -> bool {
    &&& dek.len() == 32
    &&& salt.len() == 16
    &&& nonce.len() == 12
    &&& dek_nonce.len() == 12
}

/// The values are of the right lengths and were drawn, the second nonce in a draw of its own after
/// the first.
pub open spec fn are_draws(
    dek: Seq<u8>,
    salt: Seq<u8>,
    nonce: Seq<u8>,
    dek_nonce: Seq<u8>,
) -> bool {
    &&& drawn_lengths(dek, salt, nonce, dek_nonce)
    &&& exists|before: Seq<u8>| #[trigger] drawn_over(before, dek)
    &&& exists|before: Seq<u8>| #[trigger] drawn_over(before, salt)
    &&& exists|before: Seq<u8>| #[trigger] drawn_over(before, nonce)
    &&& drawn_over(nonce, dek_nonce)
}

/// `bytes` are encrypted in these fields under `dek`, bound to the version, and `dek` under the
/// password.
pub open spec fn is_opening(
    raw: RawFields,
    version: u8,
    password: Seq<char>,
    dek: Seq<u8>,
    bytes: Seq<u8>,
) -> bool {
    &&& derived_key(password, raw.salt) matches Ok(kek)
    &&& dek.len() == 32
    &&& is_sealing(kek, raw.dek_nonce, dek_context(), dek, raw.encrypted_dek)
    &&& is_sealing(
        dek,
        raw.nonce,
        aad_of(data_context(), raw.salt, raw.nonce, version),
        bytes,
        raw.ciphertext,
    )
}

/// The shape of the record of a text of `len` bytes: how long its fields are written.
pub open spec fn has_shape(record: Record, len: nat) -> bool {
    &&& record.salt.len() == 32
    &&& record.nonce.len() == 16
    &&& record.dek_nonce.len() == 16
    &&& record.encrypted_dek.len() == 64
    &&& record.ciphertext.len() == base64_len(len + TAG_LEN as nat)
    &&& record.version == ProtectedData::CURRENT_VERSION
}

/// The record holds an encrypted key of 32 bytes and an encrypted text of `len` bytes, each with its
/// tag.
pub open spec fn holds_sizes(record: Record, len: nat) -> bool {
    &&& parsed(record) matches Ok(raw)
    &&& raw.encrypted_dek.len() == 32 + TAG_LEN
    &&& raw.ciphertext.len() == len + TAG_LEN
}

/// The fields of a record are well-formed and a key can be derived from the password, but the
/// encrypted key or the encrypted text has a size that no encryption has.
pub open spec fn has_impossible_size(record: Record, password: Seq<char>) -> bool {
    &&& parsed(record) matches Ok(raw)
    &&& encode_utf8(password).len() <= MAX_INPUT_LEN
    &&& {
        ||| raw.encrypted_dek.len() != 32 + TAG_LEN
        ||| raw.ciphertext.len() < TAG_LEN
        ||| raw.ciphertext.len() > MAX_OPENED_LEN + TAG_LEN
    }
}

/// Seals and opens texts.
pub struct Vault;

impl Vault {
    /// Memory of Argon2id: 64 MiB.
    pub const ARGON2_MEM_KIB: u32 = 64 * 1024;

    /// Passes of Argon2id.
    pub const ARGON2_TIME: u32 = 3;

    /// Lanes of Argon2id.
    pub const ARGON2_PARALLEL: u32 = 1;

    /// Derives a key of 256 bits from the master password.
    pub fn derive_key(master_password: &str, salt: &[u8]) -> (r: Result<SecretKey, VaultError>)
        ensures
            outcome(r) == derived_key(master_password@, salt@),
            r matches Ok(key) ==> key.bytes@ == argon2id(
                65536,
                3,
                1,
                encode_utf8(master_password@),
                salt@,
                32,
            ),
            r is Ok <==> encode_utf8(master_password@).len() <= 0xFFFF_FFFF && 8 <= salt@.len()
                <= 0xFFFF_FFFF,
    {
        let mut key = SecretKey::zeroed();
        match argon2id_into(
            Self::ARGON2_MEM_KIB,
            Self::ARGON2_TIME,
            Self::ARGON2_PARALLEL,
            master_password.as_bytes(),
            salt,
            &mut key.bytes,
        ) {
            Ok(_) => Ok(key),
            Err(reason) => Err(VaultError::KeyDerivation(reason)),
        }
    }

    /// Builds the associated data: context, salt, nonce and version, one after the other. It ties
    /// a ciphertext to the rest of its record.
    pub fn build_aad(context: &[u8], salt: &[u8; 16], nonce: &[u8; 12], version: u8) -> (aad: Vec<u8>)
        requires
            context@.len() + 29 <= isize::MAX,
        ensures
            aad@ == aad_of(context@, salt@, nonce@, version),
            aad@ == context@ + salt@ + nonce@ + seq![version],
    {
        let mut aad: Vec<u8> = Vec::with_capacity(context.len() + 16 + 12 + 1);
        aad.extend_from_slice(context);
        aad.extend_from_slice(salt.as_slice());
        aad.extend_from_slice(nonce.as_slice());
        aad.push(version);
        assert(aad@ =~= aad_of(context@, salt@, nonce@, version));
        aad
    }

    /// Seals `plaintext` under `master_password` with the given key, salt and nonces. What it
    /// returns opens to `plaintext` again.
    pub fn encrypt_with(
        plaintext: &str,
        master_password: &str,
        dek: &SecretKey,
        salt: &[u8; 16],
        nonce: &[u8; 12],
        dek_nonce: &[u8; 12],
    ) -> (r: Result<ProtectedData, VaultError>)
        requires
            fits_in_memory(encode_utf8(plaintext@).len()),
        ensures
            outcome(r) == sealed(plaintext@, master_password@, dek@, salt@, nonce@, dek_nonce@),
            r matches Ok(data) ==> opened(data@, master_password@) == Ok::<Seq<char>, Failure>(
                plaintext@,
            ),
            r matches Ok(data) ==> has_shape(data@, encode_utf8(plaintext@).len()),
            r matches Ok(data) ==> holds_sizes(data@, encode_utf8(plaintext@).len()),
    {
        let data_label: [u8; 4] = [0x44, 0x41, 0x54, 0x41];
        assert(data_label@ =~= data_context());
        let aad = Self::build_aad(
            data_label.as_slice(),
            salt,
            nonce,
            ProtectedData::CURRENT_VERSION,
        );
        let ciphertext = match seal(
            &dek.bytes,
            nonce,
            aad.as_slice(),
            plaintext.as_bytes(),
        ) {
            Some(ciphertext) => ciphertext,
            None => return Err(VaultError::Encryption),
        };
        let kek = Self::derive_key(master_password, salt.as_slice())?;
        let dek_label: [u8; 3] = [0x44, 0x45, 0x4B];
        assert(dek_label@ =~= dek_context());
        let encrypted_dek = match seal(
            &kek.bytes,
            dek_nonce,
            dek_label.as_slice(),
            dek.bytes.as_slice(),
        ) {
            Some(encrypted_dek) => encrypted_dek,
            None => return Err(VaultError::Encryption),
        };
        proof {
            parsed_record(
                RawFields {
                    salt: salt@,
                    nonce: nonce@,
                    dek_nonce: dek_nonce@,
                    encrypted_dek: encrypted_dek@,
                    ciphertext: ciphertext@,
                },
            );
            vstd::utf8::encode_utf8_valid_utf8(plaintext@);
            vstd::utf8::encode_utf8_decode_utf8(plaintext@);
        }
        Ok(ProtectedData::from_raw(salt, nonce, dek_nonce, encrypted_dek, ciphertext))
    }

    /// Seals `plaintext` under `master_password`, with a key, a salt and nonces that are drawn
    /// anew by the generator of the operating system. The contract holds whatever was drawn; that
    /// nobody can guess it is up to the generator.
    pub fn encrypt(plaintext: &str, master_password: &str) -> (r: Result<ProtectedData, VaultError>)
        requires
            fits_in_memory(encode_utf8(plaintext@).len()),
        ensures
            exists|dek: Seq<u8>, salt: Seq<u8>, nonce: Seq<u8>, dek_nonce: Seq<u8>| #[trigger]
                are_draws(dek, salt, nonce, dek_nonce) && outcome(r) == sealed(
                    plaintext@,
                    master_password@,
                    dek,
                    salt,
                    nonce,
                    dek_nonce,
                ),
            match r {
                Ok(_) => sealing_failure(plaintext@, master_password@) is None,
                Err(e) => sealing_failure(plaintext@, master_password@) == Some(e@),
            },
            r matches Ok(data) ==> opened(data@, master_password@) == Ok::<Seq<char>, Failure>(
                plaintext@,
            ),
            r matches Ok(data) ==> has_shape(data@, encode_utf8(plaintext@).len()),
            r matches Ok(data) ==> holds_sizes(data@, encode_utf8(plaintext@).len()),
    {
        let mut dek = SecretKey::zeroed();
        fill_random(&mut dek.bytes);
        let mut salt = [0u8; 16];
        let mut nonce = [0u8; 12];
        fill_random(&mut salt);
        fill_random(&mut nonce);
        let mut dek_nonce = nonce;
        fill_random(&mut dek_nonce);
        assert(are_draws(dek@, salt@, nonce@, dek_nonce@));
        Self::encrypt_with(plaintext, master_password, &dek, &salt, &nonce, &dek_nonce)
    }

    /// Whether the record of a text of `len` bytes can be held in memory.
    pub fn record_fits(len: usize) -> (fits: bool)
        ensures
            fits == fits_in_memory(len as nat),
    {
        let most: usize = isize::MAX as usize;
        len <= most - TAG_LEN - 2 && (len + TAG_LEN + 2) / 3 <= most / 4
    }

    /// Takes the key of a text over from what it was unsealed to, which is overwritten.
    pub fn take_dek(unsealed: Option<Vec<u8>>) -> (r: Result<SecretKey, VaultError>)
        ensures
            outcome(r) == dek_of(
                match unsealed {
                    Some(bytes) => Some(bytes@),
                    None => None,
                },
            ),
    {
        let mut bytes = match unsealed {
            Some(bytes) => bytes,
            None => return Err(VaultError::Decryption),
        };
        let key = to_array::<32>(bytes.as_slice());
        wipe_vec(&mut bytes);
        match key {
            Some(bytes) => Ok(SecretKey { bytes }),
            None => Err(VaultError::Decryption),
        }
    }

    /// Takes the text over from what it was unsealed to, without a copy.
    pub fn take_text(unsealed: Option<Vec<u8>>) -> (r: Result<SecretText, VaultError>)
        ensures
            outcome(r) == text_of(
                match unsealed {
                    Some(bytes) => Some(bytes@),
                    None => None,
                },
            ),
    {
        match unsealed {
            None => Err(VaultError::Decryption),
            Some(bytes) => match string_from_utf8(bytes) {
                Some(text) => Ok(SecretText::new(text)),
                None => Err(VaultError::InvalidUtf8),
            },
        }
    }

    /// Opens `data` with `master_password`. What is not an encryption under that password, bound to
    /// the salt, the nonce and the version of `data`, is refused; so is what has not the size of
    /// one.
    pub fn decrypt(
        data: &ProtectedData,
        master_password: &str,
    ) -> (r: Result<SecretText, VaultError>)
        ensures
            outcome(r) == opened(data@, master_password@),
            r matches Ok(text) ==> holds_sizes(data@, encode_utf8(text@).len()),
            parsed(data@) matches Ok(raw) ==> forall|dek: Seq<u8>, bytes: Seq<u8>| #[trigger]
                is_opening(raw, data.version, master_password@, dek, bytes) ==> outcome(r)
                    == text_of(Some(bytes)),
            has_impossible_size(data@, master_password@) ==> (r matches Err(e) && e@
                == Failure::Decryption),
    {
        let raw = data.to_raw()?;
        let kek = Self::derive_key(master_password, raw.salt.as_slice())?;
        let dek_label: [u8; 3] = [0x44, 0x45, 0x4B];
        assert(dek_label@ =~= dek_context());
        let dek = Self::take_dek(
            unseal(
                &kek.bytes,
                &raw.dek_nonce,
                dek_label.as_slice(),
                raw.encrypted_dek.as_slice(),
            ),
        )?;
        let data_label: [u8; 4] = [0x44, 0x41, 0x54, 0x41];
        assert(data_label@ =~= data_context());
        let aad = Self::build_aad(data_label.as_slice(), &raw.salt, &raw.nonce, data.version);
        let unsealed_text = unseal(
            &dek.bytes,
            &raw.nonce,
            aad.as_slice(),
            raw.ciphertext.as_slice(),
        );
        proof {
            if unsealed_text is Some && valid_utf8(unsealed_text->0@) {
                vstd::utf8::decode_utf8_encode_utf8(unsealed_text->0@);
            }
        }
        Self::take_text(unsealed_text)
    }
}

} // verus!
