//! Values that do not outlive their use: their memory is overwritten when they are dropped.

use vstd::prelude::*;
use zeroize::Zeroize;

verus! {

/// Calls `zeroize` on an array of bytes: every byte becomes 0.
#[verifier::external_body]
pub(crate) fn wipe_array<const N: usize>(bytes: &mut [u8; N])
    ensures
        forall|i: int| 0 <= i < N ==> #[trigger] final(bytes)@[i] == 0,
    opens_invariants none
    no_unwind
{
    bytes.zeroize()
}

/// Calls `zeroize` on a vector of bytes: its memory is overwritten and it is left empty. The
/// contract says the latter; bytes past the end of a vector are none of its contents.
#[verifier::external_body]
pub(crate) fn wipe_vec(bytes: &mut Vec<u8>)
    ensures
        final(bytes)@ == Seq::<u8>::empty(),
    opens_invariants none
    no_unwind
{
    bytes.zeroize()
}

/// Calls `zeroize` on a string: its memory is overwritten and it is left empty. The contract says
/// the latter; bytes past the end of a string are none of its contents.
#[verifier::external_body]
pub(crate) fn wipe_string(text: &mut String)
    ensures
        final(text)@ == Seq::<char>::empty(),
    opens_invariants none
    no_unwind
{
    text.zeroize()
}

/// A key of 256 bits.
pub struct SecretKey {
    pub bytes: [u8; 32],
}

impl View for SecretKey {
    type V = Seq<u8>;

    open spec fn view(&self) -> Seq<u8> {
        self.bytes@
    }
}

impl SecretKey {
    /// A key of zeros, to be filled in place.
    pub fn zeroed() -> (key: Self)
        ensures
            key@ == Seq::new(32, |i: int| 0u8),
    {
        let key = SecretKey { bytes: [0u8; 32] };
        assert(key@ =~= Seq::new(32, |i: int| 0u8));
        key
    }
}

impl Drop for SecretKey {
    /// Leaves nothing of the key behind.
    fn drop(&mut self)
        ensures
            final(self)@ == Seq::new(32, |i: int| 0u8),
        opens_invariants none
        no_unwind
    {
        wipe_array(&mut self.bytes);
        assert(self@ =~= Seq::new(32, |i: int| 0u8));
    }
}

/// A text that is kept to oneself: a password, or what a record was opened to.
pub struct SecretText {
    text: String,
}

impl View for SecretText {
    type V = Seq<char>;

    closed spec fn view(&self) -> Seq<char> {
        self.text@
    }
}

impl SecretText {
    /// Takes the text over, without a copy.
    pub fn new(text: String) -> (secret: Self)
        ensures
            secret@ == text@,
    {
        SecretText { text }
    }

    /// The text itself.
    pub fn as_str(&self) -> (s: &str)
        ensures
            s@ == self@,
    {
        self.text.as_str()
    }
}

impl Drop for SecretText {
    /// Leaves nothing of the text behind.
    fn drop(&mut self)
        ensures
            final(self)@ == Seq::<char>::empty(),
        opens_invariants none
        no_unwind
    {
        wipe_string(&mut self.text);
    }
}

} // verus!
