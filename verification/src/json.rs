//! A plain-data model of JSON documents, and the trusted parser bridge.
//!
//! Provider responses arrive as JSON text. `serde_json` parses them; its
//! `Value` is opaque to the verifier, so the parse result is converted, one
//! variant for one, into the library's own `Json`, over which the response
//! extractors are verified.

use vstd::prelude::*;

verus! {

/// A JSON document as plain data. Numbers are carried as their decimal
/// rendering: no part of this library reads them, it only passes them by.
pub enum Json {
    Null,
    Bool(bool),
    Num(String),
    Str(String),
    Arr(Vec<Json>),
    Obj(Vec<(String, Json)>),
}

/// The value under `key` in an object's entry list: the first match wins.
pub open spec fn entries_lookup(entries: Seq<(String, Json)>, key: Seq<char>) -> Option<Json>
    decreases entries.len(),
{
    if entries.len() == 0 {
        None
    } else if entries[0].0@ == key {
        Some(entries[0].1)
    } else {
        entries_lookup(entries.skip(1), key)
    }
}

/// The value under `key`, if `j` is an object that has one.
pub open spec fn json_field(j: Json, key: Seq<char>) -> Option<Json> {
    match j {
        Json::Obj(entries) => entries_lookup(entries@, key),
        _ => None,
    }
}

/// The `i`-th element, if `j` is an array of more than `i` elements.
pub open spec fn json_index(j: Json, i: int) -> Option<Json> {
    match j {
        Json::Arr(elems) => if 0 <= i < elems@.len() {
            Some(elems@[i])
        } else {
            None
        },
        _ => None,
    }
}

/// The characters of `j`, if it is a string.
pub open spec fn json_str(j: Json) -> Option<Seq<char>> {
    match j {
        Json::Str(s) => Some(s@),
        _ => None,
    }
}

/// Look a field up in an object.
pub fn get_field<'a>(j: &'a Json, key: &str) -> (r: Option<&'a Json>)
    ensures
        r matches Some(v) ==> json_field(*j, key@) == Some(*v),
        r is None ==> json_field(*j, key@) is None,
{
    match j {
        Json::Obj(entries) => {
            let n = entries.len();
            let mut i: usize = 0;
            proof {
                assert(entries@.skip(0) =~= entries@);
            }
            while i < n
                invariant
                    n == entries@.len(),
                    i <= n,
                    json_field(*j, key@) == entries_lookup(entries@, key@),
                    entries_lookup(entries@, key@) == entries_lookup(entries@.skip(i as int), key@),
                decreases n - i,
            {
                proof {
                    assert(entries@.skip(i as int)[0] == entries@[i as int]);
                }
                if crate::text::str_eq(entries[i].0.as_str(), key) {
                    proof {
                        assert(entries_lookup(entries@.skip(i as int), key@) == Some(
                            entries@[i as int].1,
                        ));
                    }
                    return Some(&entries[i].1);
                }
                proof {
                    assert(entries@.skip(i as int).skip(1) =~= entries@.skip(i + 1));
                }
                i = i + 1;
            }
            proof {
                assert(entries@.skip(n as int).len() == 0);
            }
            None
        },
        _ => None,
    }
}

/// Pick an element out of an array.
pub fn get_index<'a>(j: &'a Json, i: usize) -> (r: Option<&'a Json>)
    ensures
        r matches Some(v) ==> json_index(*j, i as int) == Some(*v),
        r is None ==> json_index(*j, i as int) is None,
{
    match j {
        Json::Arr(elems) => if i < elems.len() {
            Some(&elems[i])
        } else {
            None
        },
        _ => None,
    }
}

/// Copy a JSON string's text out.
pub fn get_text(j: &Json) -> (r: Option<String>)
    ensures
        r matches Some(s) ==> json_str(*j) == Some(s@),
        r is None ==> json_str(*j) is None,
{
    match j {
        Json::Str(s) => Some(s.clone()),
        _ => None,
    }
}

#[verifier::external_type_specification]
#[verifier::external_body]
pub struct ExValue(serde_json::Value);

/// Relies on `serde_json::Value`'s shape alone: each variant of the parsed
/// tree is carried over to the matching `Json` variant, numbers as their
/// decimal rendering.
#[verifier::external_body]
fn json_of_value(v: &serde_json::Value) -> Json {
    match v {
        serde_json::Value::Null => Json::Null,
        serde_json::Value::Bool(b) => Json::Bool(*b),
        serde_json::Value::Number(n) => Json::Num(n.to_string()),
        serde_json::Value::String(s) => Json::Str(s.clone()),
        serde_json::Value::Array(a) => Json::Arr(a.iter().map(json_of_value).collect()),
        serde_json::Value::Object(o) => Json::Obj(
            o.iter().map(|(k, x)| (k.clone(), json_of_value(x))).collect(),
        ),
    }
}

/// What parsing a JSON text yields: `None` where the text is not valid
/// JSON, otherwise the parsed document. A function of the text alone.
pub uninterp spec fn parsed_json(s: Seq<char>) -> Option<Json>;

/// Relies on `serde_json::from_str::<Value>`: parsing is a deterministic
/// function of the input text, and fails exactly on invalid JSON.
#[verifier::external_body]
pub fn parse_json(s: &str) -> (r: Option<Json>)
    ensures
        r == parsed_json(s@),
{
    match serde_json::from_str::<serde_json::Value>(s) {
        Ok(v) => Some(json_of_value(&v)),
        Err(_) => None,
    }
}

} // verus!
