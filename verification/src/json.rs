use vstd::prelude::*;

verus! {

/// The lower-case hexadecimal digit for `n`, below 16.
pub open spec fn hex_digit(n: int) -> char {
    seq!['0', '1', '2', '3', '4', '5', '6', '7', '8', '9', 'a', 'b', 'c', 'd', 'e', 'f'][n]
}

/// How `serde_json` writes the character `c` inside a string: `"` and `\`
/// behind a backslash, the controls that JSON names by a letter by that
/// letter, the other controls below U+0020 as `\u00` and two hexadecimal
/// digits, and every other character as it is.
pub open spec fn json_char_text(c: char) -> Seq<char> {
    if c == '"' {
        seq!['\\', '"']
    } else if c == '\\' {
        seq!['\\', '\\']
    } else if c == '\u{8}' {
        seq!['\\', 'b']
    } else if c == '\t' {
        seq!['\\', 't']
    } else if c == '\n' {
        seq!['\\', 'n']
    } else if c == '\u{c}' {
        seq!['\\', 'f']
    } else if c == '\r' {
        seq!['\\', 'r']
    } else if (c as int) < 0x20 {
        seq!['\\', 'u', '0', '0', hex_digit((c as int) / 16), hex_digit((c as int) % 16)]
    } else {
        seq![c]
    }
}

/// The characters of `s`, each written as `json_char_text` writes it.
pub open spec fn json_escaped(s: Seq<char>) -> Seq<char>
    decreases s.len(),
{
    if s.len() == 0 {
        Seq::<char>::empty()
    } else {
        json_escaped(s.drop_last()) + json_char_text(s.last())
    }
}

/// The JSON text that `serde_json` writes for the string `s`: the escaped
/// characters between double quotes.
pub open spec fn json_string_text(s: Seq<char>) -> Seq<char> {
    seq!['"'] + json_escaped(s) + seq!['"']
}

/// The JSON text that `serde_json` writes, compactly, for an object with the
/// single member `key`, whose value is the string `value`.
pub open spec fn json_object_text(key: Seq<char>, value: Seq<char>) -> Seq<char> {
    seq!['{'] + json_string_text(key) + seq![':'] + json_string_text(value) + seq!['}']
}

/// What `serde_json` finds when it parses `text` as a JSON value and looks up
/// the member `key`: the member's value where `text` parses as an object
/// that has the member and the member is a string, `None` otherwise.
pub uninterp spec fn json_string_member(text: Seq<char>, key: Seq<char>) -> Option<Seq<char>>;

/// Writes `s` as a JSON string with `serde_json`: `Value::String` written out
/// by its `Display` impl, which is what `json!(s).to_string()` gives: the
/// string between double quotes, with the escapes of `serde_json`'s table
/// (`format_escaped_str_contents` and `write_char_escape` in `ser.rs`).
#[verifier::external_body]
pub(crate) fn json_string_literal(s: &str) -> (res: String)
    ensures
        res@ == json_string_text(s@),
{
    serde_json::Value::String(s.to_string()).to_string()
}

/// Writes the object `{key: value}` with `serde_json`: a `Map` with the one
/// member, wrapped in `Value::Object` and written out by its `Display` impl,
/// which is what `json!({ key: value }).to_string()` builds: the compact
/// object text, key and value written as JSON strings.
#[verifier::external_body]
pub(crate) fn json_object_with_string(key: &str, value: &str) -> (res: String)
    ensures
        res@ == json_object_text(key@, value@),
{
    let mut map = serde_json::Map::new();
    map.insert(key.to_string(), serde_json::Value::String(value.to_string()));
    serde_json::Value::Object(map).to_string()
}

/// Parses `text` with `serde_json::from_str` into a `serde_json::Value` and
/// reads the member `key` of it with `Value::get` and `Value::as_str`; a text
/// that does not parse gives `None`. Besides naming the result, the contract
/// claims one fact of `serde_json`: the object text that
/// `json_object_with_string` writes for `key` and a string parses back to
/// that string. Nothing is claimed of other texts.
#[verifier::external_body]
pub(crate) fn json_string_member_of(text: &str, key: &str) -> (res: Option<String>)
    ensures
        res.deep_view() == json_string_member(text@, key@),
        forall|v: Seq<char>|
            text@ == #[trigger] json_object_text(key@, v) ==> res.deep_view() == Some(v),
{
    match serde_json::from_str::<serde_json::Value>(text) {
        Ok(value) => value.get(key).and_then(serde_json::Value::as_str).map(str::to_string),
        Err(_) => None,
    }
}

} // verus!
