//! Calls into outside crates: random identifiers, SHA-256 digests and JSON.
use vstd::prelude::*;

use crate::profile::ConfigValue;
use crate::text::is_lower_hex_spec;
use sha2::Digest;

verus! {

/// The hyphenated lower-case text of a UUID: 36 characters, each a
/// lower-case hexadecimal digit or `-`.
pub open spec fn uuid_text_shape(s: Seq<char>) -> bool {
    &&& s.len() == 36
    &&& forall|i: int| 0 <= i < 36 ==> #[trigger] is_lower_hex_spec(s[i]) || s[i] == '-'
}

/// `uuid::Uuid::new_v4` rendered by its `Display` impl. The value is random;
/// what is stated is the shape of every outcome: `Display` delegates to
/// `LowerHex` of the hyphenated form, 32 lower-case hex digits in groups
/// 8-4-4-4-12 separated by `-`. Which digits come out is left unsaid.
#[verifier::external_body]
pub(crate) fn random_uuid_text() -> (r: String)
    ensures
        uuid_text_shape(r@),
{
    uuid::Uuid::new_v4().to_string()
}

/// The lower-case hexadecimal SHA-256 digest of a byte string.
pub uninterp spec fn sha256_lower_hex(bytes: Seq<u8>) -> Seq<char>;

/// `sha2::Sha256::digest` of `bytes`, rendered with `{:x}` (the `LowerHex`
/// impl of `generic_array`, two lower-case hex digits per byte of the 32-byte
/// output). The digest itself is named, not stated; its shape is: 64
/// lower-case hexadecimal digits.
#[verifier::external_body]
pub(crate) fn sha256_hex(bytes: &[u8]) -> (r: String)
    ensures
        r@ == sha256_lower_hex(bytes@),
        r@.len() == 64,
        forall|i: int| 0 <= i < 64 ==> #[trigger] is_lower_hex_spec(r@[i]),
{
    format!("{:x}", sha2::Sha256::digest(bytes))
}

/// What `serde_json` reads from `bytes` as a JSON array of strings.
pub uninterp spec fn json_string_array(bytes: Seq<u8>) -> Option<Seq<Seq<char>>>;

/// `serde_json::from_slice::<Vec<String>>`. Its result is a function of the
/// bytes alone and is named, not stated: `Ok` exactly when the name gives
/// `Some`, and then the same strings in the same order. The text of the
/// error is `serde_json::Error`'s `Display`, which is left unsaid.
#[verifier::external_body]
pub(crate) fn parse_json_string_array(bytes: &[u8]) -> (r: Result<Vec<String>, String>)
    ensures
        r is Ok <==> json_string_array(bytes@) is Some,
        r matches Ok(v) ==> json_string_array(bytes@) == Some(crate::text::texts(v@)),
{
    serde_json::from_slice::<Vec<String>>(bytes).map_err(|e| e.to_string())
}

/// What `serde_json` reads from `bytes` as a JSON object whose values are all
/// strings, its entries in ascending key order.
pub uninterp spec fn json_string_map(bytes: Seq<u8>) -> Option<Seq<(Seq<char>, Seq<char>)>>;

/// `serde_json::from_slice::<BTreeMap<String, String>>`, its entries listed in
/// the map's key order. Named as above; the error text is left unsaid.
#[verifier::external_body]
pub(crate) fn parse_json_string_map(bytes: &[u8]) -> (r: Result<Vec<(String, String)>, String>)
    ensures
        r is Ok <==> json_string_map(bytes@) is Some,
        r matches Ok(v) ==> json_string_map(bytes@) == Some(
            v@.map_values(|p: (String, String)| (p.0@, p.1@)),
        ),
{
    serde_json::from_slice::<std::collections::BTreeMap<String, String>>(bytes)
        .map(|m| m.into_iter().collect())
        .map_err(|e| e.to_string())
}

/// A lower-case hexadecimal digit.
pub open spec fn json_hex_digit(n: int) -> char {
    if n < 10 {
        (48 + n) as char
    } else {
        (87 + n) as char
    }
}

/// How `serde_json` writes one character inside a string literal: `"` and
/// `\` behind a backslash, the five short control escapes, `\u00xx` with
/// lower-case hex for the other control characters below 0x20, and every
/// other character as itself.
pub open spec fn json_char_escape(c: char) -> Seq<char> {
    if c == '"' {
        seq!['\\', '"']
    } else if c == '\\' {
        seq!['\\', '\\']
    } else if c == '\u{8}' {
        seq!['\\', 'b']
    } else if c == '\t' {
        seq!['\\', 't']
    } else if c == '\n' {
        seq!['\\', 'n']
    } else if c == '\u{c}' {
        seq!['\\', 'f']
    } else if c == '\r' {
        seq!['\\', 'r']
    } else if (c as int) < 0x20 {
        seq!['\\', 'u', '0', '0', json_hex_digit((c as int) / 16), json_hex_digit((c as int) % 16)]
    } else {
        seq![c]
    }
}

/// The characters of a text escaped one by one.
pub open spec fn json_escape(s: Seq<char>) -> Seq<char>
    decreases s.len(),
{
    if s.len() == 0 {
        Seq::empty()
    } else {
        json_escape(s.drop_last()) + json_char_escape(s.last())
    }
}

/// The JSON string literal `serde_json` writes for a text: its escaped
/// characters between two `"`.
pub open spec fn json_quoted(s: Seq<char>) -> Seq<char> {
    seq!['"'] + json_escape(s) + seq!['"']
}

/// `serde_json::to_string` of a string slice (its `format_escaped_str`):
/// the JSON string literal `json_quoted` states, which starts and ends with
/// `"`. Writing a `&str` cannot fail.
#[verifier::external_body]
pub(crate) fn json_quote(s: &str) -> (r: String)
    ensures
        r@ == json_quoted(s@),
        r@.len() >= 2,
        r@[0] == '"',
        r@.last() == '"',
{
    serde_json::to_string(s).unwrap_or_default()
}

/// The text `Debug` writes for a string: quoted, with escapes.
pub uninterp spec fn debug_quoted(s: Seq<char>) -> Seq<char>;

/// `format!("{:?}", s)` for a string slice (std's `Debug` for `str`). Its
/// escaping is named, not stated.
#[verifier::external_body]
pub(crate) fn debug_quote(s: &str) -> (r: String)
    ensures
        r@ == debug_quoted(s@),
{
    format!("{:?}", s)
}

/// The text `Debug` writes for a path: quoted, with escapes.
pub uninterp spec fn debug_path_quoted(s: Seq<char>) -> Seq<char>;

/// `format!("{:?}", Path::new(s))` (std's `Debug` for `Path`, whose
/// escaping is its own and need not match `str`'s). Its escaping is named,
/// not stated.
#[verifier::external_body]
pub(crate) fn debug_path_quote(s: &str) -> (r: String)
    ensures
        r@ == debug_path_quoted(s@),
{
    format!("{:?}", std::path::Path::new(s))
}

/// A TOML value, as the `toml` crate parses it.
#[verifier::external_type_specification]
#[verifier::external_body]
pub struct ExTomlValue(toml::Value);

/// The configuration a TOML text holds: its top-level table, in the
/// crate's table order, each value converted one for one; `None` when the
/// text is not a TOML document.
pub uninterp spec fn toml_config(text: Seq<char>) -> Option<Seq<(String, ConfigValue)>>;

/// `text.parse::<toml::Table>()` (`toml::from_str`), its entries converted
/// by `config_value`; the parser's error text when it fails. Which texts
/// parse, and to what, is named, not stated; the error text is left
/// unsaid.
#[verifier::external_body]
pub(crate) fn parse_toml_config(text: &str) -> (r: Result<Vec<(String, ConfigValue)>, String>)
    ensures
        r is Ok <==> toml_config(text@) is Some,
        r matches Ok(v) ==> toml_config(text@) == Some(v@),
{
    let parsed: toml::Table = text.parse().map_err(|e: toml::de::Error| e.to_string())?;
    Ok(parsed.iter().map(|(k, v)| (k.clone(), config_value(v))).collect())
}

/// One TOML value as a configuration value: a string, an integer, an array
/// and a table one for one, anything else `Other`. It only converts.
#[verifier::external_body]
fn config_value(v: &toml::Value) -> ConfigValue {
    match v {
        toml::Value::String(s) => ConfigValue::Str(s.clone()),
        toml::Value::Integer(i) => ConfigValue::Integer(*i),
        toml::Value::Array(items) => ConfigValue::Array(items.iter().map(config_value).collect()),
        toml::Value::Table(t) => ConfigValue::Table(t.iter().map(|(k, v)| (k.clone(), config_value(v))).collect()),
        _ => ConfigValue::Other,
    }
}

} // verus!
