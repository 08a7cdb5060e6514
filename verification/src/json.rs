//! The JSON that records and agent messages are written in.
//!
//! The JSON syntax itself is the business of `serde_json`. This module gives
//! names to what it finds in a document, and small functions that ask it.

use vstd::prelude::*;

verus! {

/// Why `serde_json` rejects `doc` as a JSON document, in its own words;
/// `None` where `doc` is one.
pub uninterp spec fn json_fault(doc: Seq<char>) -> Option<Seq<char>>;

/// The string that the JSON document `doc` holds at the JSON Pointer
/// `pointer`; `None` where `doc` is no JSON document, holds nothing there,
/// or holds something other than a string.
pub uninterp spec fn json_string_at(doc: Seq<char>, pointer: Seq<char>) -> Option<Seq<char>>;

/// The unsigned integer that the JSON document `doc` holds at the JSON
/// Pointer `pointer`; `None` where `doc` is no JSON document, holds nothing
/// there, or holds something other than an integer of 0 to 2^64 - 1.
pub uninterp spec fn json_u64_at(doc: Seq<char>, pointer: Seq<char>) -> Option<u64>;

/// The character that stands for `n` as a hexadecimal digit, in lower
/// case.
pub open spec fn hex_digit(n: int) -> char {
    if n == 0 {
        '0'
    } else if n == 1 {
        '1'
    } else if n == 2 {
        '2'
    } else if n == 3 {
        '3'
    } else if n == 4 {
        '4'
    } else if n == 5 {
        '5'
    } else if n == 6 {
        '6'
    } else if n == 7 {
        '7'
    } else if n == 8 {
        '8'
    } else if n == 9 {
        '9'
    } else if n == 10 {
        'a'
    } else if n == 11 {
        'b'
    } else if n == 12 {
        'c'
    } else if n == 13 {
        'd'
    } else if n == 14 {
        'e'
    } else {
        'f'
    }
}

/// What stands for the character `c` inside a JSON string literal: a
/// backslash and the character for the double quote and the backslash; a
/// backslash and a letter for the backspace, tab, line feed, form feed and
/// carriage return; `\u00` and two hexadecimal digits for the other
/// characters below the space; and `c` itself for every other character.
pub open spec fn json_escaped(c: char) -> Seq<char> {
    if c == '"' {
        seq!['\\', '"']
    } else if c == '\\' {
        seq!['\\', '\\']
    } else if c == '\u{8}' {
        seq!['\\', 'b']
    } else if c == '\t' {
        seq!['\\', 't']
    } else if c == '\n' {
        seq!['\\', 'n']
    } else if c == '\u{c}' {
        seq!['\\', 'f']
    } else if c == '\r' {
        seq!['\\', 'r']
    } else if (c as u32) < 0x20 {
        seq!['\\', 'u', '0', '0', hex_digit((c as u32 / 16) as int), hex_digit((c as u32 % 16) as int)]
    } else {
        seq![c]
    }
}

/// The characters of `s`, each as it stands inside a JSON string literal.
pub open spec fn json_escaped_all(s: Seq<char>) -> Seq<char>
    decreases s.len(),
{
    if s.len() == 0 {
        Seq::empty()
    } else {
        json_escaped_all(s.drop_last()) + json_escaped(s.last())
    }
}

/// The JSON string literal for `s`: its characters, escaped, between double
/// quotes.
pub open spec fn json_quoted(s: Seq<char>) -> Seq<char> {
    seq!['"'] + json_escaped_all(s) + seq!['"']
}

/// How `doc` fails to be JSON, if it does.
///
/// Trusted: calls `serde_json::from_str` for a `serde_json::Value` and hands
/// back the message of its error. Claims only that this is the value named
/// `json_fault`.
#[verifier::external_body]
pub(crate) fn fault(doc: &str) -> (found: Option<String>)
    ensures
        found matches Some(msg) ==> json_fault(doc@) == Some(msg@),
        found is None ==> json_fault(doc@) is None,
{
    serde_json::from_str::<serde_json::Value>(doc).err().map(|e| e.to_string())
}

/// The string at `pointer` in `doc`.
///
/// Trusted: parses with `serde_json::from_str`, looks up with
/// `Value::pointer` and reads with `Value::as_str`. Claims only that the
/// outcome is the value named `json_string_at`.
#[verifier::external_body]
pub(crate) fn string_at(doc: &str, pointer: &str) -> (found: Option<String>)
    ensures
        found matches Some(s) ==> json_string_at(doc@, pointer@) == Some(s@),
        found is None ==> json_string_at(doc@, pointer@) is None,
{
    let value = serde_json::from_str::<serde_json::Value>(doc).ok()?;
    value.pointer(pointer)?.as_str().map(|s| s.to_owned())
}

/// The unsigned integer at `pointer` in `doc`.
///
/// Trusted: parses with `serde_json::from_str`, looks up with
/// `Value::pointer` and reads with `Value::as_u64`. Claims only that the
/// outcome is the value named `json_u64_at`.
#[verifier::external_body]
pub(crate) fn u64_at(doc: &str, pointer: &str) -> (found: Option<u64>)
    ensures
        found == json_u64_at(doc@, pointer@),
{
    let value = serde_json::from_str::<serde_json::Value>(doc).ok()?;
    value.pointer(pointer)?.as_u64()
}

/// `s` as a JSON string literal.
///
/// Trusted: calls `serde_json::to_string` on a string slice, which cannot
/// fail. Claims that the outcome is the string between double quotes, with
/// the escapes of `serde_json`, as `json_quoted` states them.
#[verifier::external_body]
pub(crate) fn quoted(s: &str) -> (literal: String)
    ensures
        literal@ == json_quoted(s@),
{
    serde_json::to_string(s).unwrap_or_default()
}

} // verus!
