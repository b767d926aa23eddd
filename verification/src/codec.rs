//! The two textual encodings of bytes that a protected record is written in: hexadecimal for the
//! salt, Base64 for everything else.

use base64::engine::general_purpose::STANDARD;
use base64::Engine;
use vstd::prelude::*;
use vstd::utf8::encode_utf8;

use crate::text::decimal;

verus! {

// ---------------------------------------------------------------------------------------------
// Hexadecimal
// ---------------------------------------------------------------------------------------------

/// Why a text is not hexadecimal.
#[derive(Debug, Clone, Copy, PartialEq, Eq, Structural)]
pub enum HexError {
    /// The byte at `index` is no hexadecimal digit; `c` is that byte, read as a character.
    InvalidHexCharacter { c: char, index: usize },
    /// Two digits make a byte, so their number must be even.
    OddLength,
    /// The text does not fill the place that was set aside for it.
    InvalidStringLength,
}

/// The lower-case hexadecimal digit of value `v`.
pub open spec fn hex_digit(v: int) -> char {
    if v < 10 {
        (0x30 + v) as char
    } else {
        (0x61 + v - 10) as char
    }
}

/// The value of a hexadecimal digit in either case.
pub open spec fn hex_value(b: u8) -> Option<int> {
    if 0x30 <= b <= 0x39 {
        Some(b - 0x30)
    } else if 0x61 <= b <= 0x66 {
        Some(b - 0x61 + 10)
    } else if 0x41 <= b <= 0x46 {
        Some(b - 0x41 + 10)
    } else {
        None
    }
}

/// The bytes in lower-case hexadecimal, two digits each.
pub open spec fn hex_text(bytes: Seq<u8>) -> Seq<char> {
    Seq::new(
        2 * bytes.len(),
        |i: int|
            if i % 2 == 0 {
                hex_digit(bytes[i / 2] as int / 16)
            } else {
                hex_digit(bytes[i / 2] as int % 16)
            },
    )
}

/// `i` is the first place in `t` that holds no hexadecimal digit.
pub open spec fn first_non_hex(t: Seq<u8>, i: int) -> bool {
    &&& 0 <= i < t.len()
    &&& hex_value(t[i]) is None
    &&& forall|j: int| 0 <= j < i ==> hex_value(#[trigger] t[j]) is Some
}

/// What the hexadecimal digits `t` stand for.
pub open spec fn hex_bytes(t: Seq<u8>) -> Seq<u8> {
    Seq::new(
        t.len() / 2,
        |i: int| (hex_value(t[2 * i])->0 * 16 + hex_value(t[2 * i + 1])->0) as u8,
    )
}

/// What a text decodes to as hexadecimal. The digits may be of either case; the number of digits
/// is looked at first, then the first byte that is no digit.
pub open spec fn hex_decoding(text: Seq<char>) -> Result<Seq<u8>, HexError> {
    let t = encode_utf8(text);
    if t.len() % 2 != 0 {
        Err(HexError::OddLength)
    } else if exists|i: int| first_non_hex(t, i) {
        let i = choose|i: int| first_non_hex(t, i);
        Err(HexError::InvalidHexCharacter { c: t[i] as char, index: i as usize })
    } else {
        Ok(hex_bytes(t))
    }
}

/// Calls `hex::encode`: every byte becomes two lower-case digits, the high half first.
#[verifier::external_body]
pub(crate) fn hex_encode(bytes: &[u8]) -> (r: String)
    requires
        2 * bytes@.len() <= isize::MAX,
    ensures
        r@ == hex_text(bytes@),
{
    hex::encode(bytes)
}

/// Calls `hex::decode`: digits of either case are read in pairs; an odd number of bytes is refused
/// before any of them is looked at, and otherwise the first byte that is no digit is reported.
#[verifier::external_body]
pub(crate) fn hex_decode(text: &str) -> (r: Result<Vec<u8>, HexError>)
    ensures
        match r {
            Ok(bytes) => hex_decoding(text@) == Ok::<Seq<u8>, HexError>(bytes@),
            Err(e) => hex_decoding(text@) == Err::<Seq<u8>, HexError>(e),
        },
{
    hex::decode(text).map_err(|e| match e {
        hex::FromHexError::InvalidHexCharacter { c, index } => HexError::InvalidHexCharacter { c, index },
        hex::FromHexError::OddLength => HexError::OddLength,
        hex::FromHexError::InvalidStringLength => HexError::InvalidStringLength,
    })
}

/// The character in quotes, escaped as in a Rust literal: its `Debug`.
pub uninterp spec fn char_literal(c: char) -> Seq<char>;

/// The text of a hexadecimal error.
pub open spec fn hex_error_text(e: HexError) -> Seq<char> {
    match e {
        HexError::InvalidHexCharacter { c, index } => "Invalid character "@ + char_literal(c)
            + " at position "@ + decimal(index as nat),
        HexError::OddLength => "Odd number of digits"@,
        HexError::InvalidStringLength => "Invalid string length"@,
    }
}

/// Calls the `Display` of `hex::FromHexError`: a fixed sentence for each kind, the one for a
/// character with that character as a literal and its place in decimal.
#[verifier::external_body]
pub(crate) fn hex_error_string(e: &HexError) -> (r: String)
    ensures
        r@ == hex_error_text(*e),
        *e matches HexError::InvalidHexCharacter { c, index } ==> r@ == "Invalid character "@
            + char_literal(c) + " at position "@ + decimal(index as nat),
{
    let outside = match *e {
        HexError::InvalidHexCharacter { c, index } => hex::FromHexError::InvalidHexCharacter { c, index },
        HexError::OddLength => hex::FromHexError::OddLength,
        HexError::InvalidStringLength => hex::FromHexError::InvalidStringLength,
    };
    outside.to_string()
}

/// Decoding what was encoded in hexadecimal gives the bytes back.
pub proof fn hex_round_trip(bytes: Seq<u8>)
    ensures
        hex_decoding(hex_text(bytes)) == Ok::<Seq<u8>, HexError>(bytes),
{
    let text = hex_text(bytes);
    assert(vstd::utf8::is_ascii_chars(text));
    vstd::utf8::is_ascii_chars_encode_utf8(text);
    let t = encode_utf8(text);
    assert forall|i: int| 0 <= i < t.len() implies hex_value(#[trigger] t[i]) == Some(
        if i % 2 == 0 {
            bytes[i / 2] as int / 16
        } else {
            bytes[i / 2] as int % 16
        },
    ) by {
        assert(text[i] as u8 == t[i]);
    }
    assert(hex_bytes(t) =~= bytes) by {
        assert forall|i: int| 0 <= i < bytes.len() implies hex_bytes(t)[i] == bytes[i] by {
            assert(hex_value(t[2 * i]) == Some(bytes[i] as int / 16));
            assert(hex_value(t[2 * i + 1]) == Some(bytes[i] as int % 16));
        }
    }
}

// ---------------------------------------------------------------------------------------------
// Base64
// ---------------------------------------------------------------------------------------------

/// Why a text is not Base64.
#[derive(Debug, Clone, Copy, PartialEq, Eq, Structural)]
pub enum Base64Error {
    /// The byte at the given offset may not stand there.
    InvalidByte(usize, u8),
    /// The number of symbols cannot be that of an encoding.
    InvalidLength(usize),
    /// The last symbol carries bits that belong to no byte.
    InvalidLastSymbol(usize, u8),
    /// The padding is missing or is not the one that the symbols call for.
    InvalidPadding,
}

/// The symbol of the standard alphabet for the six bits `v`.
pub open spec fn base64_symbol(v: int) -> char {
    if v < 26 {
        (0x41 + v) as char
    } else if v < 52 {
        (0x61 + v - 26) as char
    } else if v < 62 {
        (0x30 + v - 52) as char
    } else if v == 62 {
        '+'
    } else {
        '/'
    }
}

/// The byte at `i`, or 0 past the end.
pub open spec fn byte_at(bytes: Seq<u8>, i: int) -> int {
    if i < bytes.len() {
        bytes[i] as int
    } else {
        0
    }
}

/// The `j`-th group of six bits of `bytes`; four groups cover three bytes.
pub open spec fn base64_sextet(bytes: Seq<u8>, j: int) -> int {
    let first = byte_at(bytes, 3 * (j / 4));
    let second = byte_at(bytes, 3 * (j / 4) + 1);
    let third = byte_at(bytes, 3 * (j / 4) + 2);
    if j % 4 == 0 {
        first / 4
    } else if j % 4 == 1 {
        (first % 4) * 16 + second / 16
    } else if j % 4 == 2 {
        (second % 16) * 4 + third / 64
    } else {
        third % 64
    }
}

/// The number of characters that `n` bytes take in Base64.
pub open spec fn base64_len(n: nat) -> nat {
    4 * ((n + 2) / 3)
}

/// The bytes in Base64: the standard alphabet, padded with `=` to a multiple of four characters.
pub open spec fn base64_text(bytes: Seq<u8>) -> Seq<char> {
    Seq::new(
        base64_len(bytes.len()),
        |j: int|
            if 6 * j < 8 * bytes.len() {
                base64_symbol(base64_sextet(bytes, j))
            } else {
                '='
            },
    )
}

/// What the decoder answers on a text that is the encoding of no bytes.
pub uninterp spec fn base64_refusal(text: Seq<char>) -> Base64Error;

/// What a text decodes to as Base64: the bytes whose encoding it is, if there are any.
pub open spec fn base64_decoding(text: Seq<char>) -> Result<Seq<u8>, Base64Error> {
    if exists|bytes: Seq<u8>| base64_text(bytes) == text {
        Ok(choose|bytes: Seq<u8>| base64_text(bytes) == text)
    } else {
        Err(base64_refusal(text))
    }
}

/// Calls `base64`'s `Engine::encode` with the engine `STANDARD`: the standard alphabet, with
/// padding.
#[verifier::external_body]
pub(crate) fn base64_encode(bytes: &[u8]) -> (r: String)
    requires
        base64_len(bytes@.len()) <= isize::MAX,
    ensures
        r@ == base64_text(bytes@),
{
    STANDARD.encode(bytes)
}

/// Calls `base64`'s `Engine::decode` with the engine `STANDARD`. That engine wants canonical
/// padding and no stray bits in the last symbol, so it accepts exactly the texts that encoding
/// produces; which error it gives on another text depends on that text alone.
#[verifier::external_body]
pub(crate) fn base64_decode(text: &str) -> (r: Result<Vec<u8>, Base64Error>)
    ensures
        match r {
            Ok(bytes) => base64_text(bytes@) == text@,
            Err(e) => e == base64_refusal(text@) && forall|bytes: Seq<u8>|
                #[trigger] base64_text(bytes) != text@,
        },
{
    STANDARD.decode(text).map_err(|e| match e {
        base64::DecodeError::InvalidByte(offset, byte) => Base64Error::InvalidByte(offset, byte),
        base64::DecodeError::InvalidLength(len) => Base64Error::InvalidLength(len),
        base64::DecodeError::InvalidLastSymbol(offset, byte) => Base64Error::InvalidLastSymbol(offset, byte),
        base64::DecodeError::InvalidPadding => Base64Error::InvalidPadding,
    })
}

/// The text of a Base64 error.
pub open spec fn base64_error_text(e: Base64Error) -> Seq<char> {
    match e {
        Base64Error::InvalidByte(offset, byte) => "Invalid symbol "@ + decimal(byte as nat)
            + ", offset "@ + decimal(offset as nat) + "."@,
        Base64Error::InvalidLength(len) => "Invalid input length: "@ + decimal(len as nat),
        Base64Error::InvalidLastSymbol(offset, byte) => "Invalid last symbol "@ + decimal(
            byte as nat,
        ) + ", offset "@ + decimal(offset as nat) + "."@,
        Base64Error::InvalidPadding => "Invalid padding"@,
    }
}

/// Calls the `Display` of `base64::DecodeError`: a sentence for each kind, with its numbers in
/// decimal.
#[verifier::external_body]
pub(crate) fn base64_error_string(e: &Base64Error) -> (r: String)
    ensures
        r@ == base64_error_text(*e),
{
    let outside = match *e {
        Base64Error::InvalidByte(offset, byte) => base64::DecodeError::InvalidByte(offset, byte),
        Base64Error::InvalidLength(len) => base64::DecodeError::InvalidLength(len),
        Base64Error::InvalidLastSymbol(offset, byte) => base64::DecodeError::InvalidLastSymbol(offset, byte),
        Base64Error::InvalidPadding => base64::DecodeError::InvalidPadding,
    };
    outside.to_string()
}

/// Six bits are at most 63.
proof fn lemma_sextet_range(bytes: Seq<u8>, j: int)
    requires
        0 <= j,
    ensures
        0 <= base64_sextet(bytes, j) < 64,
{
}

/// Different six bits have different symbols, none of which is the padding.
proof fn lemma_symbol_injective(v: int, w: int)
    requires
        0 <= v < 64,
        0 <= w < 64,
    ensures
        base64_symbol(v) != '=',
        base64_symbol(v) == base64_symbol(w) ==> v == w,
{
}

/// Texts of different byte counts differ.
proof fn lemma_base64_text_len(a: Seq<u8>, b: Seq<u8>)
    requires
        base64_text(a) == base64_text(b),
    ensures
        a.len() == b.len(),
{
    let ta = base64_text(a);
    let tb = base64_text(b);
    assert(ta.len() == tb.len());
    if a.len() != b.len() {
        let (x, y) = if a.len() < b.len() { (a, b) } else { (b, a) };
        let tx = base64_text(x);
        let ty = base64_text(y);
        // The two counts share their number of quads, so the shorter one is padded where the
        // longer one still has a symbol.
        let j = 4 * ((x.len() + 2) / 3) - 4 + (if x.len() % 3 == 1 { 2int } else { 3int });
        assert(tx[j] == '=');
        lemma_sextet_range(y, j);
        lemma_symbol_injective(base64_sextet(y, j), 0);
        assert(ty[j] == base64_symbol(base64_sextet(y, j)));
        assert(false);
    }
}

/// No two byte sequences share their Base64 text.
pub proof fn base64_injective(a: Seq<u8>, b: Seq<u8>)
    requires
        base64_text(a) == base64_text(b),
    ensures
        a == b,
{
    lemma_base64_text_len(a, b);
    assert forall|j: int| 0 <= j && 6 * j < 8 * a.len() implies #[trigger] base64_sextet(a, j)
        == base64_sextet(b, j) by {
        lemma_sextet_range(a, j);
        lemma_sextet_range(b, j);
        lemma_symbol_injective(base64_sextet(a, j), base64_sextet(b, j));
        assert(j < base64_len(a.len()));
        assert(base64_text(a)[j] == base64_symbol(base64_sextet(a, j)));
        assert(base64_text(b)[j] == base64_symbol(base64_sextet(b, j)));
    }
    assert forall|i: int| 0 <= i < a.len() implies a[i] == b[i] by {
        let q = i / 3;
        let j = 4 * q + i % 3;
        assert(base64_sextet(a, j) == base64_sextet(b, j));
        assert(base64_sextet(a, j + 1) == base64_sextet(b, j + 1));
        assert(j / 4 == q);
        assert((j + 1) / 4 == q);
    }
    assert(a =~= b);
}

/// Decoding what was encoded in Base64 gives the bytes back.
pub proof fn base64_round_trip(bytes: Seq<u8>)
    ensures
        base64_decoding(base64_text(bytes)) == Ok::<Seq<u8>, Base64Error>(bytes),
{
    let text = base64_text(bytes);
    let found = choose|b: Seq<u8>| base64_text(b) == text;
    base64_injective(found, bytes);
}

/// A text decodes to bytes only if it is their one encoding: there is no second way to write the
/// same bytes.
pub proof fn base64_canonical(text: Seq<char>, bytes: Seq<u8>)
    ensures
        base64_decoding(text) == Ok::<Seq<u8>, Base64Error>(bytes) <==> text == base64_text(bytes),
{
    if text == base64_text(bytes) {
        base64_round_trip(bytes);
    }
}

} // verus!
