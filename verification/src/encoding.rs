//! Byte encodings used by the stored-data format: hexadecimal (through the
//! `hex` crate) and UTF-8 (through `String::from_utf8`).

use vstd::prelude::*;
use vstd::utf8::*;

verus! {

/// A byte that `hex` accepts as a digit: `0-9`, `a-f`, `A-F`.
pub open spec fn is_hex_byte(b: u8) -> bool {
    (0x30 <= b <= 0x39) || (0x61 <= b <= 0x66) || (0x41 <= b <= 0x46)
}

/// The value of a hex digit byte.
pub open spec fn hex_value(b: u8) -> int {
    if 0x30 <= b <= 0x39 {
        b - 0x30
    } else if 0x61 <= b <= 0x66 {
        b - 0x61 + 10
    } else {
        b - 0x41 + 10
    }
}

/// What `hex::decode` gives back: `None` for an odd length or a byte that
/// is not a hex digit, else the bytes that each pair of digits spells,
/// high nibble first.
pub open spec fn hex_decode_spec(s: Seq<u8>) -> Option<Seq<u8>> {
    if s.len() % 2 == 0 && forall|i: int| 0 <= i < s.len() ==> is_hex_byte(#[trigger] s[i]) {
        Some(
            Seq::new(
                s.len() / 2,
                |i: int| (hex_value(s[2 * i]) * 16 + hex_value(s[2 * i + 1])) as u8,
            ),
        )
    } else {
        None
    }
}

/// The lower-case hex digit for a nibble.
pub open spec fn lower_hex_digit(v: int) -> char {
    if v < 10 {
        (0x30 + v) as char
    } else {
        (0x61 + v - 10) as char
    }
}

/// What `hex::encode` gives back: two lower-case digits per byte, high
/// nibble first.
pub open spec fn hex_encode_spec(b: Seq<u8>) -> Seq<char> {
    Seq::new(
        2 * b.len(),
        |i: int|
            if i % 2 == 0 {
                lower_hex_digit((b[i / 2] / 16) as int)
            } else {
                lower_hex_digit((b[i / 2] % 16) as int)
            },
    )
}

/// `hex::decode`, on the bytes of a string.
#[verifier::external_body]
pub fn hex_decode(s: &[u8]) -> (r: Option<Vec<u8>>)
    ensures
        match r {
            Some(v) => hex_decode_spec(s@) == Some(v@),
            None => hex_decode_spec(s@) is None,
        },
{
    hex::decode(s).ok()
}

/// `hex::encode`.
#[verifier::external_body]
pub fn hex_encode(data: &[u8]) -> (r: String)
    ensures
        r@ == hex_encode_spec(data@),
{
    hex::encode(data)
}

/// `String::from_utf8`: the string that the bytes spell, or `None` where
/// they are not valid UTF-8.
#[verifier::external_body]
pub fn utf8_to_string(bytes: Vec<u8>) -> (r: Option<String>)
    ensures
        match r {
            Some(s) => valid_utf8(bytes@) && s@ == decode_utf8(bytes@),
            None => !valid_utf8(bytes@),
        },
{
    String::from_utf8(bytes).ok()
}

/// Whether serde_json parses `text` as a JSON value.
pub uninterp spec fn json_accepts(text: Seq<char>) -> bool;

/// `serde_json::from_str::<serde_json::Value>(text).is_ok()`: whether the
/// text is one JSON value. What serde_json accepts is named, not restated.
#[verifier::external_body]
pub(crate) fn json_is_valid(text: &str) -> (r: bool)
    ensures
        r == json_accepts(text@),
{
    serde_json::from_str::<serde_json::Value>(text).is_ok()
}

/// Hex text is ASCII.
pub proof fn lemma_hex_encode_ascii(b: Seq<u8>)
    ensures
        is_ascii_chars(hex_encode_spec(b)),
        hex_encode_spec(b).len() == 2 * b.len(),
{
    let h = hex_encode_spec(b);
    assert forall|i: int| 0 <= i < h.len() implies '\0' <= #[trigger] h[i] <= '\u{7f}' by {
        let v = if i % 2 == 0 {
            b[i / 2] / 16
        } else {
            b[i / 2] % 16
        };
        assert(0 <= v < 16);
    }
}

/// Decoding what `hex_encode_spec` wrote, taken as bytes, gives the data back.
pub proof fn lemma_hex_round_trip(b: Seq<u8>)
    ensures
        hex_decode_spec(encode_utf8(hex_encode_spec(b))) == Some(b),
{
    let h = hex_encode_spec(b);
    lemma_hex_encode_ascii(b);
    is_ascii_chars_encode_utf8(h);
    let e = encode_utf8(h);
    assert forall|i: int| 0 <= i < e.len() implies is_hex_byte(#[trigger] e[i]) && (if i % 2
        == 0 {
        hex_value(e[i]) == b[i / 2] / 16
    } else {
        hex_value(e[i]) == b[i / 2] % 16
    }) by {
        assert(h[i] as u8 == e[i]);
        let v = if i % 2 == 0 {
            b[i / 2] / 16
        } else {
            b[i / 2] % 16
        };
        assert(0 <= v < 16);
    }
    let d = Seq::new(
        e.len() / 2,
        |i: int| (hex_value(e[2 * i]) * 16 + hex_value(e[2 * i + 1])) as u8,
    );
    assert forall|i: int| 0 <= i < b.len() implies d[i] == b[i] by {
        assert(hex_value(e[2 * i]) == b[i] / 16);
        assert((2 * i + 1) % 2 == 1);
        assert((2 * i + 1) / 2 == i);
        assert(hex_value(e[2 * i + 1]) == b[i] % 16);
    }
    assert(d =~= b);
}

} // verus!
