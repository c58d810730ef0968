//! A JSON value tree, and the trusted boundary to `serde_json`.
//!
//! The service payload arrives as JSON text.  Parsing the text into a
//! value tree is `serde_json`'s job; everything the library decides about
//! that tree (which fields exist, what their types are, what the envelope
//! means) is verified code working on the `JsonValue` type below.

use vstd::prelude::*;

verus! {

/// A JSON value, holding as plain data everything the schema logic reads.
///
/// Numbers are kept as unsigned 64-bit values: the wire format uses only
/// small non-negative integers.  A number outside that range (negative or
/// fractional) is read as `Null`, which the schema logic then rejects.
#[derive(Debug, PartialEq, Eq)]
pub enum JsonValue {
    Null,
    Bool(bool),
    Num(u64),
    Str(String),
    Arr(Vec<JsonValue>),
    Obj(Vec<(String, JsonValue)>),
}

#[verifier::external_type_specification]
#[verifier::external_body]
pub struct ExSerdeValue(serde_json::Value);

/// Relies on `serde_json::Value`: each variant is moved across one for
/// one; a number carries its `u64` value where it has one and becomes
/// `Null` otherwise.
#[verifier::external_body]
fn value_to_json(v: serde_json::Value) -> JsonValue {
    match v {
        serde_json::Value::Null => JsonValue::Null,
        serde_json::Value::Bool(b) => JsonValue::Bool(b),
        serde_json::Value::Number(n) => n.as_u64().map(JsonValue::Num).unwrap_or(JsonValue::Null),
        serde_json::Value::String(s) => JsonValue::Str(s),
        serde_json::Value::Array(a) => JsonValue::Arr(a.into_iter().map(value_to_json).collect()),
        serde_json::Value::Object(m) => {
            JsonValue::Obj(m.into_iter().map(|(k, w)| (k, value_to_json(w))).collect())
        },
    }
}

/// Relies on `serde_json::Value` construction: each variant is moved
/// across one for one.
#[verifier::external_body]
fn json_to_value(v: &JsonValue) -> serde_json::Value {
    match v {
        JsonValue::Null => serde_json::Value::Null,
        JsonValue::Bool(b) => serde_json::Value::Bool(*b),
        JsonValue::Num(n) => serde_json::Value::Number((*n).into()),
        JsonValue::Str(s) => serde_json::Value::String(s.clone()),
        JsonValue::Arr(a) => serde_json::Value::Array(a.iter().map(json_to_value).collect()),
        JsonValue::Obj(es) => {
            serde_json::Value::Object(es.iter().map(|kv| (kv.0.clone(), json_to_value(&kv.1))).collect())
        },
    }
}

/// The value tree that JSON text denotes, or `None` where the text is not
/// well-formed JSON.  The tree is a function of the bytes alone.
pub uninterp spec fn json_parse_of(bytes: Seq<u8>) -> Option<JsonValue>;

/// The JSON text that prints a value tree.  The text is a function of the
/// value alone.
pub uninterp spec fn json_text_of(v: JsonValue) -> Seq<u8>;

/// Relies on `serde_json::from_slice`: parses JSON text into a value
/// tree, deterministically in the bytes; fails on text that is not
/// well-formed JSON.
#[verifier::external_body]
pub fn json_from_bytes(bytes: &[u8]) -> (r: Option<JsonValue>)
    ensures
        r == json_parse_of(bytes@),
{
    serde_json::from_slice::<serde_json::Value>(bytes).ok().map(value_to_json)
}

/// Relies on `serde_json::to_vec`: prints a value tree as JSON text,
/// deterministically in the value.  Printing a `serde_json::Value` cannot
/// fail, so the error arm is unreachable.
#[verifier::external_body]
pub fn json_to_bytes(v: &JsonValue) -> (r: Vec<u8>)
    ensures
        r@ == json_text_of(*v),
{
    match serde_json::to_vec(&json_to_value(v)) {
        Ok(b) => b,
        Err(_) => Vec::new(),
    }
}

/// The value under the first entry of `entries` whose key reads `key`,
/// if there is one.
pub open spec fn lookup(entries: Seq<(String, JsonValue)>, key: Seq<char>) -> Option<JsonValue>
    decreases entries.len(),
{
    if entries.len() == 0 {
        None
    } else if entries[0].0@ == key {
        Some(entries[0].1)
    } else {
        lookup(entries.drop_first(), key)
    }
}

/// The value under `key` where `j` is an object holding that key.
pub open spec fn field_of(j: JsonValue, key: Seq<char>) -> Option<JsonValue> {
    match j {
        JsonValue::Obj(es) => lookup(es@, key),
        _ => None,
    }
}

/// The elements where `j` is an array.
pub open spec fn elems_of(j: JsonValue) -> Option<Seq<JsonValue>> {
    match j {
        JsonValue::Arr(a) => Some(a@),
        _ => None,
    }
}

/// The characters where `j` is a string.
pub open spec fn str_of(j: JsonValue) -> Option<Seq<char>> {
    match j {
        JsonValue::Str(s) => Some(s@),
        _ => None,
    }
}

/// The value where `j` is a number that fits in 32 unsigned bits.
pub open spec fn u32_of(j: JsonValue) -> Option<u32> {
    match j {
        JsonValue::Num(n) => if n <= u32::MAX { Some(n as u32) } else { None },
        _ => None,
    }
}

/// Looks a key up in the entry list of a JSON object, taking the first
/// entry whose key matches.
pub fn obj_get<'a>(entries: &'a Vec<(String, JsonValue)>, key: &str) -> (r: Option<&'a JsonValue>)
    ensures
        match r {
            Some(v) => lookup(entries@, key@) == Some(*v),
            None => lookup(entries@, key@) is None,
        },
{
    let owned: String = key.to_owned();
    let mut i: usize = 0;
    proof {
        assert(entries@.skip(0) =~= entries@);
    }
    while i < entries.len()
        invariant
            i <= entries@.len(),
            owned@ == key@,
            lookup(entries@, key@) == lookup(entries@.skip(i as int), key@),
        decreases entries@.len() - i,
    {
        proof {
            assert(entries@.skip(i as int).len() > 0);
            assert(entries@.skip(i as int)[0] == entries@[i as int]);
        }
        if entries[i].0 == owned {
            return Some(&entries[i].1);
        }
        proof {
            assert(entries@.skip(i as int).drop_first() =~= entries@.skip(i as int + 1));
        }
        i += 1;
    }
    proof {
        assert(entries@.skip(i as int).len() == 0);
    }
    None
}

} // verus!
