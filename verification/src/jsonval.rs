//! Structured JSON decoding through serde_json's `Value` tree. The tree is
//! opaque here: these wrappers parse and step through it, and the verified
//! client code rebuilds the typed response shapes from what they hand out.

use vstd::prelude::*;

verus! {

#[verifier::external_type_specification]
#[verifier::external_body]
pub struct ExValue(serde_json::Value);

/// Relies on `serde_json::from_str::<Value>`: parses JSON text into a
/// value tree; a parse failure is carried as the parser's message.
#[verifier::external_body]
pub fn json_parse(s: &str) -> Result<serde_json::Value, String> {
    match serde_json::from_str::<serde_json::Value>(s) {
        Ok(v) => Ok(v),
        Err(e) => Err(format!("{}", e)),
    }
}

/// Relies on `Value::get` with a string index: the object member under the
/// key, when the value is an object that has it.
#[verifier::external_body]
pub fn json_get<'a>(v: &'a serde_json::Value, key: &str) -> Option<&'a serde_json::Value> {
    v.get(key)
}

/// Relies on `Value::get` with a numeric index: the array element, when
/// the value is an array long enough.
#[verifier::external_body]
pub fn json_index(v: &serde_json::Value, i: usize) -> Option<&serde_json::Value> {
    v.get(i)
}

/// Relies on `Value::as_str`: the text of a string value, owned.
#[verifier::external_body]
pub fn json_as_string(v: &serde_json::Value) -> Option<String> {
    match v.as_str() {
        Some(s) => Some(s.to_owned()),
        None => None,
    }
}

/// Relies on `Value::as_u64`: the value of an unsigned integer.
#[verifier::external_body]
pub fn json_as_u64(v: &serde_json::Value) -> Option<u64> {
    v.as_u64()
}

/// Relies on `Value::as_array` and `Vec::len`: how many elements an array
/// value holds, bounding index walks over it.
#[verifier::external_body]
pub fn json_array_len(v: &serde_json::Value) -> Option<usize> {
    match v.as_array() {
        Some(a) => Some(a.len()),
        None => None,
    }
}

} // verus!
