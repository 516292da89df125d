//! JSON as the host reads and writes it: a text is parsed once, and each
//! member that the host asks for is read from the parsed value in the way
//! that fits it.

use vstd::prelude::*;
use vstd::string::StringExecFns;

verus! {

/// `serde_json::Value`: a parsed JSON text. It is carried from the parser
/// to the reading of its members and is not looked into here.
#[verifier::external_type_specification]
#[verifier::external_body]
pub struct ExJsonValue(serde_json::Value);

/// `serde_json::Error`: why a text was not parsed or a value not written.
/// Nothing is read from it here.
#[verifier::external_type_specification]
#[verifier::external_body]
pub struct ExJsonError(serde_json::Error);

/// The value that the parser makes of a text, or `None` where the text is
/// not JSON.
pub uninterp spec fn parsed(text: Seq<char>) -> Option<serde_json::Value>;

/// The member of a value under a key, or `None` where the value is no
/// object or has no such member.
pub uninterp spec fn member_of(
    value: serde_json::Value,
    key: Seq<char>,
) -> Option<serde_json::Value>;

/// A value as a non-negative integer, if it is one that 64 bits hold.
pub uninterp spec fn as_unsigned(value: serde_json::Value) -> Option<u64>;

/// A value as a number, if it is one: its double-precision pattern.
pub uninterp spec fn as_number(value: serde_json::Value) -> Option<u64>;

/// A value as a string, if it is one.
pub uninterp spec fn as_text(value: serde_json::Value) -> Option<Seq<char>>;

/// A value as a boolean, if it is one.
pub uninterp spec fn as_boolean(value: serde_json::Value) -> Option<bool>;

/// The pretty-printed text of the object with four members: two
/// non-negative integers, a boolean and a string, each under its key. It is
/// `None` where the serialiser gives none.
pub uninterp spec fn rendered(
    first_key: Seq<char>,
    first: u32,
    second_key: Seq<char>,
    second: u32,
    flag_key: Seq<char>,
    flag: bool,
    text_key: Seq<char>,
    text: Seq<char>,
) -> Option<Seq<char>>;

/// `serde_json::from_str` to a `serde_json::Value`. The contract claims
/// only that the outcome is a function of the text.
#[verifier::external_body]
pub(crate) fn parse(text: &str) -> (r: Result<serde_json::Value, serde_json::Error>)
    ensures
        match r {
            Ok(value) => parsed(text@) == Some(value),
            Err(_) => parsed(text@) is None,
        },
{
    serde_json::from_str(text)
}

/// `serde_json::Value::get` with a string key. The contract claims only
/// that the outcome is a function of the value and the key.
#[verifier::external_body]
pub(crate) fn get<'a>(
    value: &'a serde_json::Value,
    key: &str,
) -> (m: Option<&'a serde_json::Value>)
    ensures
        match m {
            Some(found) => member_of(*value, key@) == Some(*found),
            None => member_of(*value, key@) is None,
        },
{
    value.get(key)
}

/// `serde_json::Value::as_u64`. The contract claims only that the outcome
/// is a function of the value.
#[verifier::external_body]
pub(crate) fn unsigned(value: &serde_json::Value) -> (r: Option<u64>)
    ensures
        r == as_unsigned(*value),
{
    value.as_u64()
}

/// `serde_json::Value::as_f64`, the number handed over by its pattern. The
/// contract claims only that the outcome is a function of the value.
#[verifier::external_body]
pub(crate) fn number(value: &serde_json::Value) -> (r: Option<u64>)
    ensures
        r == as_number(*value),
{
    value.as_f64().map(|v| v.to_bits())
}

/// `serde_json::Value::as_str`. The contract claims only that the outcome
/// is a function of the value.
#[verifier::external_body]
pub(crate) fn text<'a>(value: &'a serde_json::Value) -> (r: Option<&'a str>)
    ensures
        match r {
            Some(found) => as_text(*value) == Some(found@),
            None => as_text(*value) is None,
        },
{
    value.as_str()
}

/// `serde_json::Value::as_bool`. The contract claims only that the
/// outcome is a function of the value.
#[verifier::external_body]
pub(crate) fn boolean(value: &serde_json::Value) -> (r: Option<bool>)
    ensures
        r == as_boolean(*value),
{
    value.as_bool()
}

/// `serde_json::to_string_pretty` of the `serde_json::Value::Object` with
/// the four members. The contract claims only that the outcome is a
/// function of the keys and the values.
#[verifier::external_body]
pub(crate) fn render(
    first_key: &str,
    first: u32,
    second_key: &str,
    second: u32,
    flag_key: &str,
    flag: bool,
    text_key: &str,
    text: &str,
) -> (r: Result<String, serde_json::Error>)
    ensures
        match r {
            Ok(out) => rendered(
                first_key@,
                first,
                second_key@,
                second,
                flag_key@,
                flag,
                text_key@,
                text@,
            ) == Some(out@),
            Err(_) => rendered(
                first_key@,
                first,
                second_key@,
                second,
                flag_key@,
                flag,
                text_key@,
                text@,
            ) is None,
        },
{
    let mut members = serde_json::Map::new();
    members.insert(String::from(first_key), serde_json::Value::from(first));
    members.insert(String::from(second_key), serde_json::Value::from(second));
    members.insert(String::from(flag_key), serde_json::Value::from(flag));
    members.insert(String::from(text_key), serde_json::Value::from(text));
    serde_json::to_string_pretty(&serde_json::Value::Object(members))
}

/// The value has a member under the key.
pub open spec fn has_member(value: serde_json::Value, key: Seq<char>) -> bool {
    member_of(value, key) is Some
}

/// The member under the key as a non-negative integer; `None` where it is
/// missing or is none.
pub open spec fn unsigned_member(value: serde_json::Value, key: Seq<char>) -> Option<u64> {
    match member_of(value, key) {
        Some(found) => as_unsigned(found),
        None => None,
    }
}

/// The member under the key as a number, by its double-precision pattern;
/// `None` where it is missing or is none.
pub open spec fn number_member(value: serde_json::Value, key: Seq<char>) -> Option<u64> {
    match member_of(value, key) {
        Some(found) => as_number(found),
        None => None,
    }
}

/// The member under the key as a string; `None` where it is missing or is
/// none.
pub open spec fn text_member(value: serde_json::Value, key: Seq<char>) -> Option<Seq<char>> {
    match member_of(value, key) {
        Some(found) => as_text(found),
        None => None,
    }
}

/// The member under the key as a boolean; `None` where it is missing or is
/// none.
pub open spec fn boolean_member(value: serde_json::Value, key: Seq<char>) -> Option<bool> {
    match member_of(value, key) {
        Some(found) => as_boolean(found),
        None => None,
    }
}

pub(crate) fn read_presence(value: &serde_json::Value, key: &str) -> (present: bool)
    ensures
        present == has_member(*value, key@),
{
    get(value, key).is_some()
}

pub(crate) fn read_unsigned(value: &serde_json::Value, key: &str) -> (r: Option<u64>)
    ensures
        r == unsigned_member(*value, key@),
{
    match get(value, key) {
        Some(found) => unsigned(found),
        None => None,
    }
}

pub(crate) fn read_number(value: &serde_json::Value, key: &str) -> (r: Option<u64>)
    ensures
        r == number_member(*value, key@),
{
    match get(value, key) {
        Some(found) => number(found),
        None => None,
    }
}

pub(crate) fn read_text(value: &serde_json::Value, key: &str) -> (r: Option<String>)
    ensures
        match r {
            Some(found) => text_member(*value, key@) == Some(found@),
            None => text_member(*value, key@) is None,
        },
{
    match get(value, key) {
        Some(found) => match text(found) {
            Some(t) => Some(String::from_str(t)),
            None => None,
        },
        None => None,
    }
}

pub(crate) fn read_boolean(value: &serde_json::Value, key: &str) -> (r: Option<bool>)
    ensures
        r == boolean_member(*value, key@),
{
    match get(value, key) {
        Some(found) => boolean(found),
        None => None,
    }
}

} // verus!
