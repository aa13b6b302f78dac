//! The boundary with `serde_json`: JSON text in, JSON text out. Nothing here
//! is proved; each contract says what is taken on trust from that crate.

use vstd::prelude::*;
use crate::json::Json;
use crate::json::JsonValue;

verus! {

/// A parsed document as `serde_json` holds it.
#[verifier::external_type_specification]
#[verifier::external_body]
pub struct ExValue(serde_json::Value);

/// The document that a `serde_json::Value` holds.
pub uninterp spec fn value_model(value: serde_json::Value) -> JsonValue;

/// What `serde_json::from_slice` makes of a buffer: the document, or the
/// text of the parser's error.
pub uninterp spec fn json_decoded(bytes: Seq<u8>) -> Result<JsonValue, Seq<char>>;

/// The digits of the hexadecimal escapes.
pub open spec fn hex_digits() -> Seq<char> {
    "0123456789abcdef"@
}

/// How one character stands inside a JSON string: the quote and the backslash
/// behind a backslash, the control characters below U+0020 by their letter
/// where JSON has one and as `\u00` and two hexadecimal digits where it has
/// none, every other character as it is.
pub open spec fn escaped_char(c: char) -> Seq<char> {
    let code = c as u32;
    if code == 0x22 {
        "\\\""@
    } else if code == 0x5C {
        "\\\\"@
    } else if code == 0x08 {
        "\\b"@
    } else if code == 0x09 {
        "\\t"@
    } else if code == 0x0A {
        "\\n"@
    } else if code == 0x0C {
        "\\f"@
    } else if code == 0x0D {
        "\\r"@
    } else if code < 0x20 {
        "\\u00"@ + seq![hex_digits()[(code / 16) as int], hex_digits()[(code % 16) as int]]
    } else {
        seq![c]
    }
}

/// The characters of a text as they stand inside a JSON string.
pub open spec fn escaped(text: Seq<char>) -> Seq<char>
    decreases text.len(),
{
    if text.len() == 0 {
        Seq::empty()
    } else {
        escaped(text.drop_last()) + escaped_char(text.last())
    }
}

/// The JSON string literal of a text: its escaped characters between quotes.
pub open spec fn json_quoted(text: Seq<char>) -> Seq<char> {
    "\""@ + escaped(text) + "\""@
}

/// Calls `serde_json::from_slice` for a `Value`. Trusted: the outcome is a
/// function of the bytes alone, and a failure is reported by the parser's own
/// message.
#[verifier::external_body]
pub(crate) fn decode_value(bytes: &[u8]) -> (decoded: Result<serde_json::Value, String>)
    ensures
        match decoded {
            Ok(value) => json_decoded(bytes@) == Ok::<JsonValue, Seq<char>>(value_model(value)),
            Err(message) => json_decoded(bytes@) == Err::<JsonValue, Seq<char>>(message@),
        },
{
    serde_json::from_slice::<serde_json::Value>(bytes).map_err(|e| e.to_string())
}

/// Moves a `serde_json::Value` into a `Json`, variant by variant. Trusted: the
/// `Json` holds the document that the value held.
#[verifier::external_body]
pub(crate) fn value_into_json(value: serde_json::Value) -> (json: Json)
    ensures
        json.model() == value_model(value),
{
    match value {
        serde_json::Value::Null => Json::Null,
        serde_json::Value::Bool(b) => Json::Bool(b),
        serde_json::Value::Number(n) => Json::Number(n),
        serde_json::Value::String(s) => Json::Text(s),
        serde_json::Value::Array(a) => Json::Array(a.into_iter().map(value_into_json).collect()),
        serde_json::Value::Object(m) => Json::Object(
            m.into_iter().map(|(k, v)| (k, value_into_json(v))).collect(),
        ),
    }
}

/// Builds the `serde_json::Value` of a `Json`, variant by variant; members go
/// into the object with `Map::insert`, so a later member replaces an earlier
/// one of the same key. Trusted: the value holds the document of the `Json`.
#[verifier::external_body]
pub(crate) fn json_to_value(json: &Json) -> (value: serde_json::Value)
    ensures
        value_model(value) == json.model(),
{
    match json {
        Json::Null => serde_json::Value::Null,
        Json::Bool(b) => serde_json::Value::Bool(*b),
        Json::Number(n) => serde_json::Value::Number(n.clone()),
        Json::Text(s) => serde_json::Value::String(s.clone()),
        Json::Array(items) => serde_json::Value::Array(items.iter().map(json_to_value).collect()),
        Json::Object(members) => {
            let mut map = serde_json::Map::new();
            members.iter().for_each(|(k, v)| { map.insert(k.clone(), json_to_value(v)); });
            serde_json::Value::Object(map)
        },
    }
}

/// Calls `serde_json::to_string` on a text, which cannot fail for a string.
/// Trusted: the result is the JSON string literal of the text, written as
/// serde_json's compact formatter writes it: between quotes, with the escapes
/// that `json_quoted` lists and no others.
#[verifier::external_body]
pub(crate) fn quote_text(text: &str) -> (quoted: String)
    ensures
        quoted@ == json_quoted(text@),
{
    serde_json::to_string(text).unwrap_or_default()
}

/// Parses a buffer as one JSON document.
pub fn parse_json(bytes: &[u8]) -> (parsed: Result<Json, String>)
    ensures
        match parsed {
            Ok(json) => json_decoded(bytes@) == Ok::<JsonValue, Seq<char>>(json.model()),
            Err(message) => json_decoded(bytes@) == Err::<JsonValue, Seq<char>>(message@),
        },
{
    match decode_value(bytes) {
        Ok(value) => Ok(value_into_json(value)),
        Err(message) => Err(message),
    }
}

} // verus!
