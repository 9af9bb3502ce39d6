//! JSON documents, read through `serde_json`.
//!
//! A parsed document is an opaque `serde_json::Value`; what the library reads
//! from it goes through the trusted functions below, whose results are named
//! by the uninterpreted functions beside them.

use vstd::prelude::*;

verus! {

#[verifier::external_type_specification]
#[verifier::external_body]
pub struct ExJsonValue(serde_json::Value);

/// What `serde_json::from_slice::<Value>` gives for these bytes, if they are a JSON document.
pub uninterp spec fn json_parsed(bytes: Seq<u8>) -> Option<serde_json::Value>;

/// What `Value::get` gives for this key: the member of an object, if any.
pub uninterp spec fn json_member(value: serde_json::Value, key: Seq<char>) -> Option<serde_json::Value>;

/// What `Value::as_str` gives: the text of a JSON string.
pub uninterp spec fn json_text(value: serde_json::Value) -> Option<Seq<char>>;

/// A lower-case hexadecimal digit for `d < 16`.
pub open spec fn hex_char(d: nat) -> char {
    if d < 10 {
        ((d + 48) as u8) as char
    } else {
        ((d + 87) as u8) as char
    }
}

/// How one character appears inside a JSON string: quote and backslash are
/// escaped, the control characters below U+0020 take their short escape or
/// `\u00XX`, every other character stands for itself.
pub open spec fn json_escaped_char(c: char) -> Seq<char> {
    let u = c as u32;
    if u == 0x22 {
        seq!['\\', '"']
    } else if u == 0x5c {
        seq!['\\', '\\']
    } else if u == 0x08 {
        seq!['\\', 'b']
    } else if u == 0x09 {
        seq!['\\', 't']
    } else if u == 0x0a {
        seq!['\\', 'n']
    } else if u == 0x0c {
        seq!['\\', 'f']
    } else if u == 0x0d {
        seq!['\\', 'r']
    } else if u < 0x20 {
        seq!['\\', 'u', '0', '0', hex_char((u / 16) as nat), hex_char((u % 16) as nat)]
    } else {
        seq![c]
    }
}

/// The characters of a text, each as it appears inside a JSON string.
pub open spec fn json_escaped(text: Seq<char>) -> Seq<char>
    decreases text.len(),
{
    if text.len() == 0 {
        Seq::empty()
    } else {
        json_escaped_char(text[0]) + json_escaped(text.drop_first())
    }
}

/// A text as a JSON string literal.
pub open spec fn json_quoted(text: Seq<char>) -> Seq<char> {
    seq!['"'] + json_escaped(text) + seq!['"']
}

/// What `Value::is_object` gives: whether the value is a JSON object.
pub uninterp spec fn json_object(value: serde_json::Value) -> bool;

/// What `Value::as_i64` gives: a JSON number that is an `i64`.
pub uninterp spec fn json_integer(value: serde_json::Value) -> Option<i64>;

/// Parses bytes as one JSON document with `serde_json::from_slice`; the result
/// is the name [`json_parsed`] of the bytes, `None` where serde_json reports an error.
#[verifier::external_body]
pub(crate) fn parse_json(bytes: &[u8]) -> (res: Option<serde_json::Value>)
    ensures
        res == json_parsed(bytes@),
{
    serde_json::from_slice::<serde_json::Value>(bytes).ok()
}

/// `Value::get(key)`, cloned: the result is the name [`json_member`] of the value and the key.
#[verifier::external_body]
pub(crate) fn json_get(value: &serde_json::Value, key: &str) -> (res: Option<serde_json::Value>)
    ensures
        res == json_member(*value, key@),
{
    value.get(key).cloned()
}

/// `Value::as_str`, owned: the result is the name [`json_text`] of the value.
#[verifier::external_body]
pub(crate) fn json_as_str(value: &serde_json::Value) -> (res: Option<String>)
    ensures
        match res {
            Some(s) => json_text(*value) == Some(s@),
            None => json_text(*value) is None,
        },
{
    match value.as_str() {
        Some(s) => Some(s.to_string()),
        None => None,
    }
}

/// `Value::as_i64`: the result is the name [`json_integer`] of the value.
#[verifier::external_body]
pub(crate) fn json_as_i64(value: &serde_json::Value) -> (res: Option<i64>)
    ensures
        res == json_integer(*value),
{
    value.as_i64()
}

/// `Value::is_object`: the result is the name [`json_object`] of the value.
#[verifier::external_body]
pub(crate) fn json_is_object(value: &serde_json::Value) -> (res: bool)
    ensures
        res == json_object(*value),
{
    value.is_object()
}

/// `serde_json::to_string` of a string: the text in double quotes, escaped as
/// [`json_quoted`] states (serde_json's escape table in `ser.rs`). Serializing
/// a string into memory cannot fail.
#[verifier::external_body]
pub(crate) fn json_quote(text: &str) -> (res: String)
    ensures
        res@ == json_quoted(text@),
{
    match serde_json::to_string(text) {
        Ok(s) => s,
        Err(_) => String::new(),
    }
}

} // verus!
