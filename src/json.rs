use vstd::prelude::*;
use serde_json::Value;
use vstd::string::*;

verus! {

#[verifier::external_type_specification]
#[verifier::external_body]
pub struct ExValue(Value);

/// The value that a JSON Pointer (RFC 6901) designates inside a document.
pub uninterp spec fn json_pointer(v: Value, pointer: Seq<char>) -> Option<Value>;

/// A JSON number as an `i64`, where it is an integer in range.
pub uninterp spec fn json_i64(v: Value) -> Option<i64>;

/// A JSON string's characters.
pub uninterp spec fn json_str(v: Value) -> Option<Seq<char>>;

/// Relies on serde_json's `Value::pointer`: looks a JSON Pointer up; the
/// empty pointer designates the whole value.
pub assume_specification<'a>[ Value::pointer ](v: &'a Value, pointer: &str) -> (r: Option<&'a Value>)
    ensures
        match r {
            Some(x) => json_pointer(*v, pointer@) == Some(*x),
            None => json_pointer(*v, pointer@) is None,
        },
        pointer@.len() == 0 ==> r == Some(v),
;

/// Relies on serde_json's `Value::as_i64`: an integer that fits `i64`, or
/// `None` for anything else.
pub assume_specification[ Value::as_i64 ](v: &Value) -> (r: Option<i64>)
    ensures
        r == json_i64(*v),
;

/// Relies on serde_json's `Value::as_str`: the text of a JSON string, or
/// `None` for anything else.
pub assume_specification[ Value::as_str ](v: &Value) -> (r: Option<&str>)
    ensures
        match r {
            Some(s) => json_str(*v) == Some(s@),
            None => json_str(*v) is None,
        },
;

/// The integer at `pointer` in `payload`, if there is a payload and an
/// integer there.
pub open spec fn int_at(payload: Option<Value>, pointer: Seq<char>) -> Option<i64> {
    match payload {
        Some(v) => match json_pointer(v, pointer) {
            Some(x) => json_i64(x),
            None => None,
        },
        None => None,
    }
}

/// The string at `pointer` in `payload`, if there is a payload and a string
/// there.
pub open spec fn str_at(payload: Option<Value>, pointer: Seq<char>) -> Option<Seq<char>> {
    match payload {
        Some(v) => match json_pointer(v, pointer) {
            Some(x) => json_str(x),
            None => None,
        },
        None => None,
    }
}

/// Reads the integer at `pointer` in `payload`.
pub fn int_field(payload: &Option<Value>, pointer: &str) -> (r: Option<i64>)
    ensures
        r == int_at(*payload, pointer@),
{
    match payload {
        Some(v) => match v.pointer(pointer) {
            Some(x) => x.as_i64(),
            None => None,
        },
        None => None,
    }
}

/// Reads the string at `pointer` in `payload`.
pub fn str_field(payload: &Option<Value>, pointer: &str) -> (r: Option<String>)
    ensures
        match r {
            Some(s) => str_at(*payload, pointer@) == Some(s@),
            None => str_at(*payload, pointer@) is None,
        },
{
    match payload {
        Some(v) => match v.pointer(pointer) {
            Some(x) => match x.as_str() {
                Some(s) => Some(String::from_str(s)),
                None => None,
            },
            None => None,
        },
        None => None,
    }
}

} // verus!
