//! Text fields of the identity record.
//!
//! The record's type-number, revision and serial fields are fixed-width
//! byte ranges holding UTF-8 text padded with NUL bytes. Decoding
//! interprets the bytes as UTF-8 — malformed UTF-8 is a decode error —
//! and then removes every NUL character.

use vstd::prelude::*;
use vstd::utf8::decode_utf8;
use vstd::utf8::valid_utf8;

verus! {

/// `s` with every NUL character removed.
pub open spec fn strip_nul_chars(s: Seq<char>) -> Seq<char> {
    s.filter(|c: char| c != '\u{0}')
}

/// The characters that a sequence of ASCII bytes spells, one per byte.
pub open spec fn ascii_chars_of(bytes: Seq<u8>) -> Seq<char> {
    bytes.map_values(|b: u8| b as char)
}

/// Relies on `String::from_utf8`: returns the bytes as a string exactly
/// when they are valid UTF-8, and refuses them otherwise.
#[verifier::external_body]
fn utf8_to_string(v: Vec<u8>) -> (r: Option<String>)
    ensures
        r is Some <==> valid_utf8(v@),
        r is Some ==> r->Some_0@ == decode_utf8(v@),
{
    match String::from_utf8(v) {
        Ok(s) => Some(s),
        Err(_) => None,
    }
}

/// Relies on `str::replace`: with a one-character pattern and an empty
/// replacement it removes every occurrence of that character and keeps
/// the rest in order.
#[verifier::external_body]
fn replace_nul(s: &str) -> (r: String)
    ensures
        r@ == strip_nul_chars(s@),
{
    s.replace('\u{0}', "")
}

/// Decode one fixed-width text field: UTF-8 bytes with the NUL padding
/// stripped. `None` exactly when the bytes are not valid UTF-8.
pub fn decode_field(bytes: Vec<u8>) -> (r: Option<String>)
    ensures
        r is Some <==> valid_utf8(bytes@),
        r is Some ==> r->Some_0@ == strip_nul_chars(decode_utf8(bytes@)),
{
    match utf8_to_string(bytes) {
        Some(s) => Some(replace_nul(s.as_str())),
        None => None,
    }
}

/// A sequence of ASCII bytes is valid UTF-8 and decodes to one character
/// per byte.
pub proof fn lemma_ascii_utf8(bytes: Seq<u8>)
    requires
        forall|i: int| 0 <= i < bytes.len() ==> bytes[i] < 0x80,
    ensures
        valid_utf8(bytes),
        decode_utf8(bytes) == ascii_chars_of(bytes),
{
    let chars = ascii_chars_of(bytes);
    assert forall|i: int| 0 <= i < chars.len() implies '\u{0}' <= #[trigger] chars[i]
        <= '\u{7f}' by {
        assert(chars[i] == bytes[i] as char);
    }
    assert(vstd::utf8::is_ascii_chars(chars));
    vstd::utf8::is_ascii_chars_encode_utf8(chars);
    assert forall|i: int| 0 <= i < bytes.len() implies vstd::utf8::encode_utf8(chars)[i]
        == bytes[i] by {
        assert(chars[i] as u8 == vstd::utf8::encode_utf8(chars)[i]);
        assert((bytes[i] as char) as u8 == bytes[i]);
    }
    assert(vstd::utf8::encode_utf8(chars) =~= bytes);
    vstd::utf8::encode_utf8_valid_utf8(chars);
    vstd::utf8::encode_utf8_decode_utf8(chars);
}

/// Turn ASCII bytes into the string they spell.
pub fn ascii_to_string(v: Vec<u8>) -> (r: String)
    requires
        forall|i: int| 0 <= i < v@.len() ==> v@[i] < 0x80,
    ensures
        r@ == ascii_chars_of(v@),
{
    proof {
        lemma_ascii_utf8(v@);
    }
    match utf8_to_string(v) {
        Some(s) => s,
        None => vstd::pervasive::unreached(),
    }
}

} // verus!
