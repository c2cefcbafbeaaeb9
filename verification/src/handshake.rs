//! What opens a session: the authorization header and the configuration message.

use crate::error::StreamError;
use crate::text::{
    decimal, is_blank, is_white_space, law_only_white_space_around_is_trimmed,
    law_trimmed_empty_iff_blank, trim, trimmed,
};
use vstd::prelude::*;
use vstd::utf8::encode_utf8;

verus! {

/// The most tokens that the backend may generate.
pub const MAX_TOKENS: u64 = 256;

/// The temperature at which the backend samples.
pub const TEMPERATURE: u64 = 0;

/// A hexadecimal digit in lower case.
pub open spec fn hex_char(d: int) -> char {
    if d < 10 {
        (48 + d) as char
    } else {
        (87 + d) as char
    }
}

/// How a character is written inside a JSON text.
pub open spec fn json_escaped_char(c: char) -> Seq<char> {
    let v = c as int;
    if c == '"' {
        seq!['\\', '"']
    } else if c == '\\' {
        seq!['\\', '\\']
    } else if v == 0x08 {
        seq!['\\', 'b']
    } else if v == 0x09 {
        seq!['\\', 't']
    } else if v == 0x0A {
        seq!['\\', 'n']
    } else if v == 0x0C {
        seq!['\\', 'f']
    } else if v == 0x0D {
        seq!['\\', 'r']
    } else if v < 0x20 {
        seq!['\\', 'u', '0', '0', hex_char(v / 16), hex_char(v % 16)]
    } else {
        seq![c]
    }
}

/// How the characters of a JSON text are written.
pub open spec fn json_escaped(s: Seq<char>) -> Seq<char>
    decreases s.len(),
{
    if s.len() == 0 {
        Seq::empty()
    } else {
        json_escaped(s.drop_last()) + json_escaped_char(s.last())
    }
}

/// A JSON text with its quotes.
pub open spec fn json_text(s: Seq<char>) -> Seq<char> {
    seq!['"'] + json_escaped(s) + seq!['"']
}

/// A JSON object with one text and two numbers, in this order, without spaces.
pub open spec fn json_record(
    text: (Seq<char>, Seq<char>),
    first: (Seq<char>, nat),
    second: (Seq<char>, nat),
) -> Seq<char> {
    seq!['{'] + json_text(text.0) + seq![':'] + json_text(text.1) + seq![','] + json_text(first.0)
        + seq![':'] + decimal(first.1) + seq![','] + json_text(second.0) + seq![':'] + decimal(
        second.1,
    ) + seq!['}']
}

/// Renders a JSON object with the `Display` of `serde_json::Value`.
///
/// Trusted: the rendering is compact, a text is quoted and escaped as `json_text` says, a
/// number is written in decimal, and the entries come in the order of their keys. So that this
/// is also the order in which they are given, the keys must start with ascending characters.
#[verifier::external_body]
fn render_json_record(text: (&str, &str), first: (&str, u64), second: (&str, u64)) -> (res: String)
    requires
        text.0@.len() > 0,
        first.0@.len() > 0,
        second.0@.len() > 0,
        (text.0@[0] as int) < (first.0@[0] as int) < (second.0@[0] as int),
    ensures
        res@ == json_record(
            (text.0@, text.1@),
            (first.0@, first.1 as nat),
            (second.0@, second.1 as nat),
        ),
{
    let mut entries = serde_json::Map::new();
    entries.insert(text.0.to_string(), serde_json::Value::from(text.1));
    entries.insert(first.0.to_string(), serde_json::Value::from(first.1));
    entries.insert(second.0.to_string(), serde_json::Value::from(second.1));
    serde_json::Value::Object(entries).to_string()
}

/// Writes the message that configures a session.
pub fn config_message(context_info: &str) -> (res: String)
    ensures
        res@ == json_record(
            ("context_info"@, context_info@),
            ("max_tokens"@, MAX_TOKENS as nat),
            ("temperature"@, TEMPERATURE as nat),
        ),
{
    proof {
        reveal_strlit("context_info");
        reveal_strlit("max_tokens");
        reveal_strlit("temperature");
    }
    render_json_record(
        ("context_info", context_info),
        ("max_tokens", MAX_TOKENS),
        ("temperature", TEMPERATURE),
    )
}

/// The error of `http`'s header values, as re-exported by `tungstenite`.
#[verifier::external_type_specification]
#[verifier::external_body]
pub struct ExInvalidHeaderValue(tungstenite::http::header::InvalidHeaderValue);

/// The characters that may stand in a header value: the tab, and all but the control
/// characters below the space and the delete character.
pub open spec fn header_char(c: char) -> bool {
    let v = c as int;
    v == 0x09 || (v >= 0x20 && v != 0x7F)
}

/// Whether a text can be a header value.
pub open spec fn is_header_text(s: Seq<char>) -> bool {
    forall|i: int| 0 <= i < s.len() ==> header_char(#[trigger] s[i])
}

/// Makes a header value with `http::HeaderValue::from_str` and hands out its bytes.
///
/// Trusted: the call succeeds exactly if every byte is a tab or neither below the space nor the
/// delete byte, which for the UTF-8 of a text is `is_header_text`, and the value then holds the
/// bytes of the text.
#[verifier::external_body]
fn header_value(text: &str) -> (res: Result<Vec<u8>, tungstenite::http::header::InvalidHeaderValue>)
    ensures
        res is Ok <==> is_header_text(text@),
        res matches Ok(bytes) ==> bytes@ == encode_utf8(text@),
{
    tungstenite::http::HeaderValue::from_str(text).map(|value| value.as_bytes().to_vec())
}

/// Writes the error of a refused header value with the `Display` of
/// `http::header::InvalidHeaderValue`.
///
/// Trusted: this one text is written for every such error.
#[verifier::external_body]
fn header_error_text(error: &tungstenite::http::header::InvalidHeaderValue) -> (res: String)
    ensures
        res@ == "failed to parse header value"@,
{
    error.to_string()
}

/// The value of the authorization header for a key that is not blank.
pub open spec fn bearer_text(api_key: Seq<char>) -> Seq<char> {
    "Bearer "@ + trimmed(api_key)
}

/// Makes the authorization header of a connection. A blank key means that none is sent; the
/// white space around a key does not belong to it.
pub fn authorization(api_key: &str) -> (res: Result<Option<Vec<u8>>, StreamError>)
    ensures
        is_blank(api_key@) ==> res matches Ok(None),
        !is_blank(api_key@) && is_header_text(bearer_text(api_key@)) ==> {
            &&& res matches Ok(Some(bytes))
            &&& bytes@ == encode_utf8(bearer_text(api_key@))
        },
        !is_blank(api_key@) && !is_header_text(bearer_text(api_key@)) ==> {
            &&& res matches Err(StreamError::InvalidApiKey(cause))
            &&& cause@ == "failed to parse header value"@
        },
{
    let key: &str = trim(api_key);
    proof {
        law_trimmed_empty_iff_blank(api_key@);
    }
    if key.is_empty() {
        return Ok(None);
    }
    let text: String = String::from_str("Bearer ").concat(key);
    match header_value(text.as_str()) {
        Ok(bytes) => Ok(Some(bytes)),
        Err(error) => Err(StreamError::InvalidApiKey(header_error_text(&error))),
    }
}

/// The key is sent as it stands, without the white space around it and with nothing else taken
/// away, behind the name of the scheme.
pub proof fn law_key_is_sent_as_it_stands(a: Seq<char>, key: Seq<char>, b: Seq<char>)
    requires
        is_blank(a),
        is_blank(b),
        key.len() > 0,
        !is_white_space(key[0]),
        !is_white_space(key.last()),
    ensures
        bearer_text(a + key + b) == "Bearer "@ + key,
{
    law_only_white_space_around_is_trimmed(a, key, b);
}

/// A text can be a header value exactly if it holds no control character but the tab.
pub proof fn law_header_text_has_no_control_characters(s: Seq<char>, i: int)
    ensures
        0 <= i < s.len() && ((s[i] as int) < 0x20 && s[i] != '\t' || s[i] as int == 0x7F)
            ==> !is_header_text(s),
        (forall|j: int|
            0 <= j < s.len() ==> #[trigger] s[j] == '\t' || (s[j] as int >= 0x20 && s[j] as int
                != 0x7F)) ==> is_header_text(s),
{
    if 0 <= i < s.len() && ((s[i] as int) < 0x20 && s[i] != '\t' || s[i] as int == 0x7F) {
        assert(!header_char(s[i]));
    }
}

/// The characters of a text are escaped one by one.
pub proof fn law_escapes_of_a_concatenation(a: Seq<char>, b: Seq<char>)
    ensures
        json_escaped(a + b) == json_escaped(a) + json_escaped(b),
    decreases b.len(),
{
    if b.len() == 0 {
        assert(a + b =~= a);
    } else {
        assert((a + b).drop_last() =~= a + b.drop_last());
        law_escapes_of_a_concatenation(a, b.drop_last());
    }
    assert(json_escaped(a + b) =~= json_escaped(a) + json_escaped(b));
}

/// Only quotes, backslashes and control characters are escaped, behind a backslash; no control
/// character is left, and different characters stay different.
pub proof fn law_only_special_characters_are_escaped(c: char, d: char, i: int)
    ensures
        c as int >= 0x20 && c != '"' && c != '\\' ==> json_escaped_char(c) == seq![c],
        (c as int) < 0x20 || c == '"' || c == '\\' ==> json_escaped_char(c).len() > 1
            && json_escaped_char(c)[0] == '\\',
        c == '"' || c == '\\' ==> json_escaped_char(c) == seq!['\\', c],
        0 <= i < json_escaped_char(c).len() ==> json_escaped_char(c)[i] as int >= 0x20,
        json_escaped_char(c) == json_escaped_char(d) ==> c == d,
{
    let e = json_escaped_char(c);
    let f = json_escaped_char(d);
    if e == f {
        assert(e.len() == f.len());
        assert(e[0] == f[0]);
        if e.len() > 1 {
            assert(e[1] == f[1]);
        }
        if e.len() > 5 {
            assert(e[4] == f[4]);
            assert(e[5] == f[5]);
        }
    }
}

/// The backend may generate 256 tokens, and samples without chance.
pub proof fn law_fixed_settings()
    ensures
        MAX_TOKENS == 256,
        TEMPERATURE == 0,
{
}

} // verus!
