//! Hexadecimal text for keys, signatures and nullifiers, through the `hex`
//! crate, and the fixed-length parsers built on it.
use vstd::prelude::*;

verus! {

/// The value of a hexadecimal digit (either case), or `None`.
pub open spec fn hex_digit_value(c: char) -> Option<u8> {
    if '0' <= c && c <= '9' {
        Some((c as u32 - '0' as u32) as u8)
    } else if 'a' <= c && c <= 'f' {
        Some((c as u32 - 'a' as u32 + 10) as u8)
    } else if 'A' <= c && c <= 'F' {
        Some((c as u32 - 'A' as u32 + 10) as u8)
    } else {
        None
    }
}

/// Whether `s` is an even number of hexadecimal digits.
pub open spec fn is_hex(s: Seq<char>) -> bool {
    &&& s.len() % 2 == 0
    &&& forall|i: int| 0 <= i < s.len() ==> (#[trigger] hex_digit_value(s[i])) is Some
}

/// The bytes spelled by the digit pairs of `s` (high digit first).
pub open spec fn hex_decoded(s: Seq<char>) -> Seq<u8> {
    Seq::new(
        s.len() / 2,
        |i: int|
            (16 * (hex_digit_value(s[2 * i])->0 as int) + (hex_digit_value(
                s[2 * i + 1],
            )->0 as int)) as u8,
    )
}

/// The lower-case hexadecimal digit for `v < 16`.
pub open spec fn lower_hex_digit(v: u8) -> char {
    if v < 10 {
        (v + '0' as u32) as char
    } else {
        (v - 10 + 'a' as u32) as char
    }
}

/// The lower-case hexadecimal text of `b`, two digits per byte, high digit first.
pub open spec fn hex_encoded(b: Seq<u8>) -> Seq<char> {
    Seq::new(
        2 * b.len(),
        |i: int|
            if i % 2 == 0 {
                lower_hex_digit(b[i / 2] / 16)
            } else {
                lower_hex_digit(b[i / 2] % 16)
            },
    )
}

/// `hex::decode`: succeeds exactly when the text is an even number of
/// hexadecimal digits (either case), and then gives the bytes the digit pairs
/// spell. The error is dropped.
#[verifier::external_body]
fn hex_decode(s: &str) -> (r: Option<Vec<u8>>)
    ensures
        r is Some <==> is_hex(s@),
        r matches Some(v) ==> v@ == hex_decoded(s@),
{
    match hex::decode(s) {
        Ok(v) => Some(v),
        Err(_) => None,
    }
}

/// Decodes hexadecimal text (either case) into bytes; `None` unless the text
/// is an even number of hexadecimal digits.
pub fn decode_hex(s: &str) -> (r: Option<Vec<u8>>)
    ensures
        r is Some <==> is_hex(s@),
        r matches Some(v) ==> v@ == hex_decoded(s@),
{
    hex_decode(s)
}

/// `hex::encode`: the lower-case hexadecimal text of `bytes`.
#[verifier::external_body]
pub(crate) fn hex_encode(bytes: &[u8]) -> (s: String)
    ensures
        s@ == hex_encoded(bytes@),
{
    hex::encode(bytes)
}

/// The lower-case hexadecimal text of `bytes`, two digits per byte.
pub fn encode_hex(bytes: &[u8]) -> (s: String)
    ensures
        s@ == hex_encoded(bytes@),
{
    hex_encode(bytes)
}

/// Why a fixed-length hexadecimal value was refused.
#[derive(Debug, Clone, Copy, PartialEq, Eq, Structural)]
pub enum HexError {
    /// The text is not an even number of hexadecimal digits.
    InvalidHex,
    /// The text decodes to `got` bytes where `expected` were needed.
    WrongLength { expected: usize, got: usize },
}

/// What parsing `s` as exactly `n` hexadecimal-encoded bytes gives.
pub open spec fn parse_hex_result(s: Seq<char>, n: nat) -> Result<Seq<u8>, HexError> {
    if !is_hex(s) {
        Err(HexError::InvalidHex)
    } else if hex_decoded(s).len() != n {
        Err(HexError::WrongLength { expected: n as usize, got: hex_decoded(s).len() as usize })
    } else {
        Ok(hex_decoded(s))
    }
}

/// Decodes `s` and requires it to hold exactly `n` bytes.
pub fn decode_hex_exact(s: &str, n: usize) -> (r: Result<Vec<u8>, HexError>)
    ensures
        match parse_hex_result(s@, n as nat) {
            Ok(b) => r matches Ok(v) && v@ == b,
            Err(e) => r == Err::<Vec<u8>, HexError>(e),
        },
{
    match hex_decode(s) {
        None => Err(HexError::InvalidHex),
        Some(bytes) => {
            if bytes.len() != n {
                Err(HexError::WrongLength { expected: n, got: bytes.len() })
            } else {
                Ok(bytes)
            }
        },
    }
}

/// Parses 64 hexadecimal digits into 32 bytes.
pub fn parse_hex32(s: &str) -> (r: Result<[u8; 32], HexError>)
    ensures
        match parse_hex_result(s@, 32) {
            Ok(b) => r matches Ok(a) && a@ == b,
            Err(e) => r == Err::<[u8; 32], HexError>(e),
        },
{
    let bytes = decode_hex_exact(s, 32)?;
    let mut out = [0u8; 32];
    let mut i: usize = 0;
    while i < 32
        invariant
            i <= 32,
            bytes@.len() == 32,
            forall|k: int| 0 <= k < i ==> out[k] == bytes@[k],
        decreases 32 - i,
    {
        out[i] = bytes[i];
        i = i + 1;
    }
    assert(out@ =~= bytes@);
    Ok(out)
}

/// Parses 128 hexadecimal digits into 64 bytes.
pub fn parse_hex64(s: &str) -> (r: Result<[u8; 64], HexError>)
    ensures
        match parse_hex_result(s@, 64) {
            Ok(b) => r matches Ok(a) && a@ == b,
            Err(e) => r == Err::<[u8; 64], HexError>(e),
        },
{
    let bytes = decode_hex_exact(s, 64)?;
    let mut out = [0u8; 64];
    let mut i: usize = 0;
    while i < 64
        invariant
            i <= 64,
            bytes@.len() == 64,
            forall|k: int| 0 <= k < i ==> out[k] == bytes@[k],
        decreases 64 - i,
    {
        out[i] = bytes[i];
        i = i + 1;
    }
    assert(out@ =~= bytes@);
    Ok(out)
}

/// Decoding the lower-case hexadecimal text of any bytes gives those bytes
/// back: what `hex_encode` writes, `parse_hex32` and `parse_hex64` read.
pub proof fn lemma_hex_roundtrip(b: Seq<u8>)
    ensures
        is_hex(hex_encoded(b)),
        hex_decoded(hex_encoded(b)) == b,
{
    let s = hex_encoded(b);
    assert forall|i: int| 0 <= i < s.len() implies (#[trigger] hex_digit_value(s[i])) is Some
        && hex_digit_value(s[i])->0 == (if i % 2 == 0 {
        b[i / 2] / 16
    } else {
        b[i / 2] % 16
    }) by {
        let v: u8 = if i % 2 == 0 {
            b[i / 2] / 16
        } else {
            b[i / 2] % 16
        };
        assert(v < 16);
        assert(s[i] == lower_hex_digit(v));
    }
    assert forall|j: int| 0 <= j < b.len() implies #[trigger] hex_decoded(s)[j] == b[j] by {
        assert((2 * j) % 2 == 0);
        assert((2 * j + 1) % 2 == 1);
        assert((2 * j) / 2 == j);
        assert((2 * j + 1) / 2 == j);
        assert(hex_digit_value(s[2 * j]) is Some);
        assert(hex_digit_value(s[2 * j + 1]) is Some);
        assert(16 * (b[j] / 16) + b[j] % 16 == b[j]);
    }
    assert(hex_decoded(s) =~= b);
}

} // verus!
