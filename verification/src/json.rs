//! JSON rendering of the built-in webhook payloads.
//!
//! The serialization itself is done by serde_json; its exact output shape
//! for a one-entry string map is written down here so that the rendering
//! contracts can speak about every character of the body.

use vstd::prelude::*;
use crate::text::hex_digit;

verus! {

/// The JSON escape of one character, as serde_json's serializer writes it:
/// quote and backslash get a backslash form, the control characters with a
/// short escape use it, the rest of the control range becomes `\u00..` with
/// lowercase hexadecimal digits, and every other character stands for
/// itself.
pub open spec fn json_escape_char(c: char) -> Seq<char> {
    if c == '"' {
        seq!['\\', '"']
    } else if c == '\\' {
        seq!['\\', '\\']
    } else if c == '\u{8}' {
        seq!['\\', 'b']
    } else if c == '\t' {
        seq!['\\', 't']
    } else if c == '\n' {
        seq!['\\', 'n']
    } else if c == '\u{c}' {
        seq!['\\', 'f']
    } else if c == '\r' {
        seq!['\\', 'r']
    } else if (c as u32) < 32 {
        seq!['\\', 'u', '0', '0', hex_digit((c as nat) / 16), hex_digit((c as nat) % 16)]
    } else {
        seq![c]
    }
}

/// The JSON escape of a whole text: each character escaped in turn.
pub open spec fn json_escape(s: Seq<char>) -> Seq<char>
    decreases s.len(),
{
    if s.len() == 0 {
        Seq::empty()
    } else {
        json_escape_char(s[0]) + json_escape(s.drop_first())
    }
}

/// A JSON string literal: the escaped text between quotes.
pub open spec fn json_string(s: Seq<char>) -> Seq<char> {
    seq!['"'] + json_escape(s) + seq!['"']
}

/// The compact JSON object with a single string member:
/// `{"key":"value"}`.
pub open spec fn json_object_with_string(key: Seq<char>, value: Seq<char>) -> Seq<char> {
    seq!['{'] + json_string(key) + seq![':'] + json_string(value) + seq!['}']
}

/// Relies on `serde_json::to_string`: a `serde_json::Value` map with one
/// string entry serializes to the compact object `{"key":"value"}`, both
/// strings written with serde_json's escape table (quote, backslash, and
/// the control characters; nothing else is escaped).
#[verifier::external_body]
pub fn json_object_string(key: &str, value: &str) -> (r: String)
    ensures
        r@ == json_object_with_string(key@, value@),
{
    let mut map = serde_json::Map::new();
    map.insert(key.to_owned(), serde_json::Value::String(value.to_owned()));
    serde_json::to_string(&serde_json::Value::Object(map)).expect(
        "serializing a string map cannot fail",
    )
}

} // verus!
