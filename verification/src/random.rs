//! Random bytes.

use rand::rand_core::UnwrapErr;
use rand::rngs::SysRng;
use rand::Rng;
use vstd::prelude::*;

verus! {

/// `bytes` were drawn into an array that held `before`. Nothing but the number of bytes is true of
/// every draw, so that is all it means; but the other modules do not see the definition, and can
/// only have it from a call of `fill_random` on an array that held `before`.
pub closed spec fn drawn_over(before: Seq<u8>, bytes: Seq<u8>) -> bool {
    bytes.len() == before.len()
}

/// Calls `fill_bytes` on `rand::rngs::SysRng`, the generator of the operating system: every byte of
/// the array is drawn anew. No value is promised, only that there are as many bytes as before; the
/// call panics if the operating system yields none.
#[verifier::external_body]
pub(crate) fn fill_random<const N: usize>(bytes: &mut [u8; N])
    ensures
        drawn_over(old(bytes)@, final(bytes)@),
{
    UnwrapErr(SysRng).fill_bytes(bytes)
}

} // verus!
