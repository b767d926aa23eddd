//! What holds of the vault as a whole.

use vstd::prelude::*;
use vstd::utf8::{encode_utf8, is_ascii_chars};

use crate::api::{answers_failure, Reply};
use crate::cipher::{is_sealing, unsealed};
use crate::codec::{first_non_hex, hex_bytes, hex_decoding, hex_text, hex_value};
use crate::crypto::{
    aad_of, data_context, dek_context, dek_of, derived_key, drawn_lengths, opened, opened_raw, parsed,
    record_of, sealed, sealing_failure, RawFields, Record,
};
use crate::error::Failure;
use crate::kdf::MAX_INPUT_LEN;

verus! {

// ---------------------------------------------------------------------------------------------
// What is authenticated
// ---------------------------------------------------------------------------------------------

/// The associated data determines the salt, the nonce and the version: records that differ in one
/// of them never share it.
pub proof fn aad_binds_header(
    context: Seq<u8>,
    salt1: Seq<u8>,
    nonce1: Seq<u8>,
    version1: u8,
    salt2: Seq<u8>,
    nonce2: Seq<u8>,
    version2: u8,
)
    requires
        salt1.len() == salt2.len(),
        nonce1.len() == nonce2.len(),
        aad_of(context, salt1, nonce1, version1) == aad_of(context, salt2, nonce2, version2),
    ensures
        salt1 == salt2,
        nonce1 == nonce2,
        version1 == version2,
{
    let aad1 = aad_of(context, salt1, nonce1, version1);
    let aad2 = aad_of(context, salt2, nonce2, version2);
    let c = context.len() as int;
    let s = c + salt1.len();
    let n = s + nonce1.len();
    assert(aad1.subrange(c, s) =~= salt1);
    assert(aad2.subrange(c, s) =~= salt2);
    assert(aad1.subrange(s, n) =~= nonce1);
    assert(aad2.subrange(s, n) =~= nonce2);
    assert(aad1[n] == version1);
    assert(aad2[n] == version2);
}

/// An encrypted key and an encrypted text never share their associated data, so the one is never
/// taken for the other.
pub proof fn contexts_are_separate(salt: Seq<u8>, nonce: Seq<u8>, version: u8)
    ensures
        aad_of(data_context(), salt, nonce, version) != dek_context(),
{
    let aad = aad_of(data_context(), salt, nonce, version);
    assert(aad[1] == 0x41u8);
    assert(dek_context()[1] == 0x45u8);
}

/// A record opens to a text only if its ciphertext is the encryption of that very text, bound to
/// the salt, the nonce and the version of the record, under a key whose encryption under the
/// password is the encrypted key of the record.
pub proof fn opened_only_if_sealed(record: Record, password: Seq<char>, text: Seq<char>)
    requires
        opened(record, password) == Ok::<Seq<char>, Failure>(text),
    ensures
        exists|raw: RawFields, kek: Seq<u8>, dek: Seq<u8>|
            {
                &&& parsed(record) == Ok::<RawFields, Failure>(raw)
                &&& derived_key(password, raw.salt) == Ok::<Seq<u8>, Failure>(kek)
                &&& dek.len() == 32
                &&& #[trigger] is_sealing(
                    kek,
                    raw.dek_nonce,
                    dek_context(),
                    dek,
                    raw.encrypted_dek,
                )
                &&& is_sealing(
                    dek,
                    raw.nonce,
                    aad_of(data_context(), raw.salt, raw.nonce, record.version),
                    encode_utf8(text),
                    raw.ciphertext,
                )
            },
{
    let raw = parsed(record)->Ok_0;
    let kek = derived_key(password, raw.salt)->Ok_0;
    let dek = unsealed(kek, raw.dek_nonce, dek_context(), raw.encrypted_dek)->0;
    let aad = aad_of(data_context(), raw.salt, raw.nonce, record.version);
    let bytes = unsealed(dek, raw.nonce, aad, raw.ciphertext)->0;
    assert(is_sealing(kek, raw.dek_nonce, dek_context(), dek, raw.encrypted_dek));
    assert(is_sealing(dek, raw.nonce, aad, bytes, raw.ciphertext));
    vstd::utf8::decode_utf8_encode_utf8(bytes);
}

/// If the ciphertext of a record is replaced by another one and both records open, they open to
/// different texts: an altered ciphertext never passes for the sealed text.
pub proof fn altered_ciphertext_never_reads_the_same(
    record: Record,
    ciphertext: Seq<char>,
    password: Seq<char>,
)
    requires
        ciphertext != record.ciphertext,
        opened(record, password) is Ok,
        opened(Record { ciphertext, ..record }, password) is Ok,
    ensures
        opened(record, password)->Ok_0 != opened(Record { ciphertext, ..record }, password)->Ok_0,
{
    let altered = Record { ciphertext, ..record };
    let raw1 = parsed(record)->Ok_0;
    let raw2 = parsed(altered)->Ok_0;
    crate::codec::base64_canonical(record.ciphertext, raw1.ciphertext);
    crate::codec::base64_canonical(ciphertext, raw2.ciphertext);
    assert(raw1.ciphertext != raw2.ciphertext);
    let kek = derived_key(password, raw1.salt)->Ok_0;
    let dek = unsealed(kek, raw1.dek_nonce, dek_context(), raw1.encrypted_dek)->0;
    let aad = aad_of(data_context(), raw1.salt, raw1.nonce, record.version);
    let bytes1 = unsealed(dek, raw1.nonce, aad, raw1.ciphertext)->0;
    let bytes2 = unsealed(dek, raw1.nonce, aad, raw2.ciphertext)->0;
    assert(is_sealing(dek, raw1.nonce, aad, bytes1, raw1.ciphertext));
    assert(is_sealing(dek, raw1.nonce, aad, bytes2, raw2.ciphertext));
    vstd::utf8::decode_utf8_encode_utf8(bytes1);
    vstd::utf8::decode_utf8_encode_utf8(bytes2);
}

// ---------------------------------------------------------------------------------------------
// What a refusal says
// ---------------------------------------------------------------------------------------------

/// A key that does not open, a key of the wrong length and a text that does not open are the same
/// failure: a wrong password is not told apart from corrupted data.
pub proof fn wrong_password_and_corruption_fail_alike(
    raw: RawFields,
    version: u8,
    password: Seq<char>,
    kek: Seq<u8>,
)
    requires
        derived_key(password, raw.salt) == Ok::<Seq<u8>, Failure>(kek),
        match dek_of(unsealed(kek, raw.dek_nonce, dek_context(), raw.encrypted_dek)) {
            Err(_) => true,
            Ok(dek) => unsealed(
                dek,
                raw.nonce,
                aad_of(data_context(), raw.salt, raw.nonce, version),
                raw.ciphertext,
            ) is None,
        },
    ensures
        opened_raw(raw, version, password) == Err::<Seq<char>, Failure>(Failure::Decryption),
{
}

/// All failures to decrypt are answered in the same way.
pub proof fn refusals_look_alike<T, U>(reply1: Reply<T>, reply2: Reply<U>)
    requires
        answers_failure(reply1, Failure::Decryption),
        answers_failure(reply2, Failure::Decryption),
    ensures
        reply1.status == reply2.status,
        reply1.body->Err_0.error@ == reply2.body->Err_0.error@,
        reply1.body->Err_0.code@ == reply2.body->Err_0.code@,
{
}

/// The reason why no key could be derived is not given away to the client.
pub proof fn key_derivation_is_not_explained<T>(
    reply1: Reply<T>,
    reason1: Seq<char>,
    reply2: Reply<T>,
    reason2: Seq<char>,
)
    requires
        answers_failure(reply1, Failure::KeyDerivation(reason1)),
        answers_failure(reply2, Failure::KeyDerivation(reason2)),
    ensures
        reply1.status == reply2.status,
        reply1.body->Err_0.error@ == reply2.body->Err_0.error@,
        reply1.body->Err_0.code@ == reply2.body->Err_0.code@,
{
}

/// A malformed record is refused for its form, whatever the password.
pub proof fn malformed_whatever_the_password(
    record: Record,
    password1: Seq<char>,
    password2: Seq<char>,
)
    requires
        parsed(record) is Err,
    ensures
        opened(record, password1) is Err,
        opened(record, password1) == opened(record, password2),
{
}

/// A well-formed record is only ever refused because it does not decrypt or does not decrypt to
/// text, or because the password is too long to derive a key from.
pub proof fn well_formed_refusals(record: Record, password: Seq<char>)
    requires
        parsed(record) is Ok,
    ensures
        opened(record, password) matches Err(failure) ==> {
            ||| failure == Failure::Decryption && encode_utf8(password).len() <= MAX_INPUT_LEN
            ||| failure == Failure::InvalidUtf8 && encode_utf8(password).len() <= MAX_INPUT_LEN
            ||| failure == Failure::KeyDerivation("password is too long"@) && encode_utf8(
                password,
            ).len() > MAX_INPUT_LEN
        },
{
}

// ---------------------------------------------------------------------------------------------
// What a record is
// ---------------------------------------------------------------------------------------------

/// Whether a text can be sealed, and why not, does not depend on what is drawn.
pub proof fn drawing_does_not_decide(
    plaintext: Seq<char>,
    password: Seq<char>,
    dek: Seq<u8>,
    salt: Seq<u8>,
    nonce: Seq<u8>,
    dek_nonce: Seq<u8>,
)
    requires
        drawn_lengths(dek, salt, nonce, dek_nonce),
    ensures
        match sealed(plaintext, password, dek, salt, nonce, dek_nonce) {
            Ok(_) => sealing_failure(plaintext, password) is None,
            Err(failure) => sealing_failure(plaintext, password) == Some(failure),
        },
{
}

/// Hexadecimal texts differ where the bytes do.
proof fn lemma_hex_injective(a: Seq<u8>, b: Seq<u8>)
    requires
        hex_text(a) == hex_text(b),
    ensures
        a == b,
{
    crate::codec::hex_round_trip(a);
    crate::codec::hex_round_trip(b);
}

/// No two sets of bytes are written down as the same record.
pub proof fn records_are_distinct(raw1: RawFields, raw2: RawFields)
    requires
        record_of(raw1) == record_of(raw2),
    ensures
        raw1 == raw2,
{
    lemma_hex_injective(raw1.salt, raw2.salt);
    crate::codec::base64_injective(raw1.nonce, raw2.nonce);
    crate::codec::base64_injective(raw1.dek_nonce, raw2.dek_nonce);
    crate::codec::base64_injective(raw1.encrypted_dek, raw2.encrypted_dek);
    crate::codec::base64_injective(raw1.ciphertext, raw2.ciphertext);
}

/// Records that were sealed with different salts or nonces show it in the corresponding field,
/// even if they hold the same text under the same password.
pub proof fn different_draws_show(
    plaintext: Seq<char>,
    password: Seq<char>,
    dek1: Seq<u8>,
    salt1: Seq<u8>,
    nonce1: Seq<u8>,
    dek_nonce1: Seq<u8>,
    dek2: Seq<u8>,
    salt2: Seq<u8>,
    nonce2: Seq<u8>,
    dek_nonce2: Seq<u8>,
    record1: Record,
    record2: Record,
)
    requires
        sealed(plaintext, password, dek1, salt1, nonce1, dek_nonce1) == Ok::<Record, Failure>(
            record1,
        ),
        sealed(plaintext, password, dek2, salt2, nonce2, dek_nonce2) == Ok::<Record, Failure>(
            record2,
        ),
    ensures
        salt1 != salt2 ==> record1.salt != record2.salt,
        nonce1 != nonce2 ==> record1.nonce != record2.nonce,
        dek_nonce1 != dek_nonce2 ==> record1.dek_nonce != record2.dek_nonce,
{
    if record1.salt == record2.salt {
        lemma_hex_injective(salt1, salt2);
    }
    if record1.nonce == record2.nonce {
        crate::codec::base64_injective(nonce1, nonce2);
    }
    if record1.dek_nonce == record2.dek_nonce {
        crate::codec::base64_injective(dek_nonce1, dek_nonce2);
    }
}

/// The character in lower case, if it is a letter from `A` to `Z`.
pub open spec fn lower(c: char) -> char {
    if 'A' <= c <= 'Z' {
        (c as int + 32) as char
    } else {
        c
    }
}

/// The letter case of the salt does not matter: a record whose salt is hexadecimal opens to the
/// same with the salt in the other case.
pub proof fn salt_case_is_ignored(record: Record, salt: Seq<char>, password: Seq<char>)
    requires
        is_ascii_chars(record.salt),
        is_ascii_chars(salt),
        salt.len() == record.salt.len(),
        forall|i: int| 0 <= i < salt.len() ==> lower(#[trigger] salt[i]) == lower(record.salt[i]),
        hex_decoding(record.salt) is Ok,
    ensures
        opened(Record { salt, ..record }, password) == opened(record, password),
{
    let t1 = encode_utf8(record.salt);
    let t2 = encode_utf8(salt);
    vstd::utf8::is_ascii_chars_encode_utf8(record.salt);
    vstd::utf8::is_ascii_chars_encode_utf8(salt);
    assert forall|i: int| 0 <= i < t2.len() implies hex_value(#[trigger] t2[i]) == hex_value(
        t1[i],
    ) by {
        assert(salt[i] as u8 == t2[i]);
        assert(record.salt[i] as u8 == t1[i]);
        assert(lower(salt[i]) == lower(record.salt[i]));
        assert('\0' <= salt[i] <= '\u{7f}');
        assert('\0' <= record.salt[i] <= '\u{7f}');
    }
    if exists|i: int| first_non_hex(t2, i) {
        let i = choose|i: int| first_non_hex(t2, i);
        assert(first_non_hex(t1, i)) by {
            assert forall|j: int| 0 <= j < i implies hex_value(#[trigger] t1[j]) is Some by {
                assert(hex_value(t2[j]) is Some);
            }
        }
    }
    assert(hex_bytes(t1) =~= hex_bytes(t2)) by {
        assert forall|i: int| 0 <= i < hex_bytes(t1).len() implies hex_bytes(t1)[i] == hex_bytes(
            t2,
        )[i] by {
            assert(hex_value(t2[2 * i]) == hex_value(t1[2 * i]));
            assert(hex_value(t2[2 * i + 1]) == hex_value(t1[2 * i + 1]));
        }
    }
}

} // verus!
