//! The greeting in each of the three formats.

use crate::format::Format;
use vstd::prelude::*;
use vstd::utf8::*;

verus! {

/// The characters of the payload in each format, final newline included.
pub open spec fn payload_text(format: Format) -> Seq<char> {
    match format {
        Format::Text => "hello world\n"@,
        Format::Json => "{\"msg\":\"hello world\"}\n"@,
        Format::Csv => "msg\nhello world\n"@,
    }
}

/// The bytes that reach the destination: the payload's text in UTF-8.
pub open spec fn payload_bytes(format: Format) -> Seq<u8> {
    encode_utf8(payload_text(format))
}

/// Whether JSON writes `text` between quotes as it stands: it holds no
/// control character, no quote and no backslash.
spec fn is_plain(text: Seq<char>) -> bool {
    forall|i: int|
        0 <= i < text.len() ==> ' ' <= #[trigger] text[i] && text[i] != '"' && text[i] != '\\'
}

/// The compact JSON text of an object with the single member `key`, whose
/// value is the string `value`, both of them plain.
spec fn object_text(key: Seq<char>, value: Seq<char>) -> Seq<char> {
    seq!['{', '"'] + key + seq!['"', ':', '"'] + value + seq!['"', '}']
}

/// Renders the JSON object `{key: value}` with `serde_json`, through the
/// `Display` impl of `serde_json::Value`.
///
/// Trusted: that impl writes the compact form, an opening brace, the key and
/// the value each between quotes with a colon between them, and a closing
/// brace, with no white space. A string free of control characters, quotes
/// and backslashes is written between its quotes unchanged; for other
/// strings nothing is claimed, and they are not admitted.
#[verifier::external_body]
fn object_to_string(key: &str, value: &str) -> (r: String)
    requires
        is_plain(key@),
        is_plain(value@),
    ensures
        r@ == object_text(key@, value@),
{
    let mut object = serde_json::Map::new();
    object.insert(key.to_string(), serde_json::Value::String(value.to_string()));
    serde_json::Value::Object(object).to_string()
}

/// Builds the payload for `format`.
pub fn payload(format: Format) -> (r: String)
    ensures
        r@ == payload_text(format),
{
    match format {
        Format::Text => String::from_str("hello world\n"),
        Format::Json => {
            proof {
                reveal_strlit("msg");
                reveal_strlit("hello world");
                reveal_strlit("\n");
                reveal_strlit("{\"msg\":\"hello world\"}\n");
            }
            let object = object_to_string("msg", "hello world");
            let line = object.concat("\n");
            line
        },
        Format::Csv => String::from_str("msg\nhello world\n"),
    }
}

/// Every payload is plain ASCII, so it reaches the destination as one byte
/// for each of its characters, and each ends in a line feed.
pub proof fn payload_is_ascii(format: Format)
    ensures
        is_ascii_chars(payload_text(format)),
        payload_bytes(format).len() == payload_text(format).len(),
        forall|i: int|
            0 <= i < payload_text(format).len() ==> payload_bytes(format)[i] == payload_text(
                format,
            )[i] as u8,
        payload_text(format).len() > 0,
        payload_text(format).last() == '\n',
{
    reveal_strlit("hello world\n");
    reveal_strlit("{\"msg\":\"hello world\"}\n");
    reveal_strlit("msg\nhello world\n");
    is_ascii_chars_encode_utf8(payload_text(format));
}

} // verus!
