//! The JSON primitives that the library takes from `serde_json`.
use vstd::prelude::*;

verus! {

pub open spec fn hex_lower(d: u32) -> char {
    if d < 10 {
        ((d + 0x30) as u8) as char
    } else {
        ((d - 10 + 0x61) as u8) as char
    }
}

/// How one character is written inside a JSON string: quote and backslash
/// get a backslash, the controls with a short escape use it, the other
/// controls become `\u00xx`; every other character stays.
pub open spec fn json_escaped_char(c: char) -> Seq<char> {
    if c == '"' {
        seq!['\\', '"']
    } else if c == '\\' {
        seq!['\\', '\\']
    } else if c == '\u{8}' {
        seq!['\\', 'b']
    } else if c == '\t' {
        seq!['\\', 't']
    } else if c == '\n' {
        seq!['\\', 'n']
    } else if c == '\u{c}' {
        seq!['\\', 'f']
    } else if c == '\r' {
        seq!['\\', 'r']
    } else if (c as u32) < 0x20 {
        seq!['\\', 'u', '0', '0', hex_lower((c as u32) / 16), hex_lower((c as u32) % 16)]
    } else {
        seq![c]
    }
}

pub open spec fn json_escaped(s: Seq<char>) -> Seq<char>
    decreases s.len(),
{
    if s.len() == 0 {
        seq![]
    } else {
        json_escaped_char(s[0]) + json_escaped(s.skip(1))
    }
}

/// The JSON string literal for `s`: its escaped characters in quotes.
pub open spec fn json_quoted(s: Seq<char>) -> Seq<char> {
    seq!['"'] + json_escaped(s) + seq!['"']
}

/// Relies on serde_json::to_string on a `str`: it writes the JSON string
/// literal, escaping as serde_json's escape table gives; writing into
/// memory cannot fail, so the error arm is never taken.
#[verifier::external_body]
pub(crate) fn quote_json(s: &str) -> (r: String)
    ensures
        r@ == json_quoted(s@),
{
    match serde_json::to_string(s) {
        Ok(q) => q,
        Err(_) => String::new(),
    }
}

pub open spec fn digit_char(d: nat) -> char {
    ((d + 0x30) as u8) as char
}

/// The decimal digits of `n`, without leading zeros.
pub open spec fn decimal(n: nat) -> Seq<char>
    decreases n,
{
    if n < 10 {
        seq![digit_char(n)]
    } else {
        decimal(n / 10) + seq![digit_char(n % 10)]
    }
}

/// Relies on serde_json::to_string on a `u64`: a JSON number in decimal
/// digits; writing into memory cannot fail, so the error arm is never taken.
#[verifier::external_body]
pub(crate) fn number_json(n: u64) -> (r: String)
    ensures
        r@ == decimal(n as nat),
{
    match serde_json::to_string(&n) {
        Ok(q) => q,
        Err(_) => String::new(),
    }
}

/// Whether the bytes are one well-formed JSON value.
pub uninterp spec fn json_valid(b: Seq<u8>) -> bool;

/// Relies on serde_json::from_slice into serde_json::Value: it succeeds
/// exactly on well-formed JSON; the error is kept as its text.
#[verifier::external_body]
pub(crate) fn check_json(body: &Vec<u8>) -> (r: Result<(), String>)
    ensures
        r is Ok <==> json_valid(body@),
{
    match serde_json::from_slice::<serde_json::Value>(body) {
        Ok(_) => Ok(()),
        Err(e) => Err(e.to_string()),
    }
}

/// The string held under `key` at the top of a JSON object, if the bytes
/// are such an object and that member is a string.
pub uninterp spec fn json_text_member(b: Seq<u8>, key: Seq<char>) -> Option<Seq<char>>;

/// Relies on serde_json::from_slice into serde_json::Value, then
/// Value::get and Value::as_str: the string member `key` of a JSON object.
#[verifier::external_body]
pub(crate) fn text_member(body: &Vec<u8>, key: &str) -> (r: Option<String>)
    ensures
        match r {
            Some(s) => json_text_member(body@, key@) == Some(s@),
            None => json_text_member(body@, key@) is None,
        },
{
    serde_json::from_slice::<serde_json::Value>(body).ok().and_then(
        |v| v.get(key).and_then(|m| m.as_str()).map(|m| m.to_string()),
    )
}

} // verus!
