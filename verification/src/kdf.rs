//! Derivation of a key from a password with Argon2id.

use argon2::{Algorithm, Argon2, Params, Version};
use vstd::prelude::*;

verus! {

/// The longest password and the longest salt, in bytes.
pub const MAX_INPUT_LEN: u64 = 0xFFFF_FFFF;

/// The shortest salt, in bytes.
pub const MIN_SALT_LEN: usize = 8;

/// The Argon2id hash, version 0x13, of `len` bytes, with neither a secret nor associated data.
pub uninterp spec fn argon2id(
    memory_kib: u32,
    passes: u32,
    lanes: u32,
    password: Seq<u8>,
    salt: Seq<u8>,
    len: nat,
) -> Seq<u8>;

/// What Argon2 has against a password and a salt, if anything.
pub open spec fn argon2_objection(password: Seq<u8>, salt: Seq<u8>) -> Option<Seq<char>> {
    if password.len() > MAX_INPUT_LEN {
        Some("password is too long"@)
    } else if salt.len() < MIN_SALT_LEN {
        Some("salt is too short"@)
    } else if salt.len() > MAX_INPUT_LEN {
        Some("salt is too long"@)
    } else {
        None
    }
}

/// Calls `hash_password_into` of an `argon2::Argon2` for Argon2id in version 0x13, made from
/// `argon2::Params::new`. On costs within the bounds that `Params::new` documents, the only
/// failures are a password or a salt of an unsuitable length; the error is given as its text, and
/// the output is then untouched. Otherwise the whole output is the hash.
#[verifier::external_body]
pub(crate) fn argon2id_into<const N: usize>(
    memory_kib: u32,
    passes: u32,
    lanes: u32,
    password: &[u8],
    salt: &[u8],
    out: &mut [u8; N],
) -> (r: Result<(), String>)
    requires
        1 <= lanes <= 0xFF_FFFF,
        8 * lanes <= memory_kib,
        1024 * memory_kib <= isize::MAX,
        1 <= passes,
        4 <= N <= 0xFFFF_FFFF,
    ensures
        match r {
            Ok(_) => argon2_objection(password@, salt@) is None && final(out)@ == argon2id(
                memory_kib,
                passes,
                lanes,
                password@,
                salt@,
                N as nat,
            ),
            Err(text) => argon2_objection(password@, salt@) == Some(text@) && final(out)@ == old(
                out,
            )@,
        },
{
    let params = Params::new(memory_kib, passes, lanes, Some(N)).map_err(|e| e.to_string())?;
    Argon2::new(Algorithm::Argon2id, Version::V0x13, params)
        .hash_password_into(password, salt, out)
        .map_err(|e| e.to_string())
}

} // verus!
