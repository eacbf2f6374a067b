//! The generic JSON tree that a `package.json` document parses to, the
//! trusted boundary to the outside JSON parser, and lookup of object entries.
//!
//! Resolution reads this tree directly as the "exports"/"imports" tree: a
//! string is a target, an array a list of alternatives, an object a set of
//! conditions (or, at the top of "exports", a map of subpaths), `null` an
//! explicit "not exported", and any other shape an invalid target.

use vstd::prelude::*;
use vstd::string::*;
use crate::strings::str_eq;

verus! {

/// One value of a parsed JSON document. Object entries keep the document's
/// order; numeric payloads are dropped (the resolver never reads a number).
#[derive(Debug)]
pub enum JsonValue {
    Null,
    Bool(bool),
    Number(String),
    Str(String),
    Arr(Vec<JsonValue>),
    Obj(Vec<(String, JsonValue)>),
}

#[verifier::external_type_specification]
#[verifier::external_body]
pub struct ExSerdeValue(serde_json::Value);

/// Relies on serde_json::Value's variants: converts the parsed tree into the
/// library's own tree, one arm per variant; a number is kept as its rendered
/// text (the resolver only ever prints one).
#[verifier::external_body]
fn json_to_tree(v: &serde_json::Value) -> JsonValue {
    match v {
        serde_json::Value::Null => JsonValue::Null,
        serde_json::Value::Bool(b) => JsonValue::Bool(*b),
        serde_json::Value::Number(n) => JsonValue::Number(n.to_string()),
        serde_json::Value::String(s) => JsonValue::Str(s.clone()),
        serde_json::Value::Array(a) => JsonValue::Arr(a.iter().map(json_to_tree).collect()),
        serde_json::Value::Object(m) => JsonValue::Obj(
            m.iter().map(|(k, x)| (k.clone(), json_to_tree(x))).collect(),
        ),
    }
}

/// The tree that a JSON document's text parses to, `None` on malformed text.
/// Parsing is a function of the text alone.
pub uninterp spec fn json_of(text: Seq<char>) -> Option<JsonValue>;

/// Relies on serde_json::from_str: parses a JSON document into a tree of
/// null/bool/number/string/array/object values, keeping object entries in
/// document order (the parser's preserve-order representation), failing
/// exactly on malformed text, deterministically in the text alone.
#[verifier::external_body]
pub fn parse_json(text: &str) -> (r: Option<JsonValue>)
    ensures
        r == json_of(text@),
{
    match serde_json::from_str::<serde_json::Value>(text) {
        Ok(v) => Some(json_to_tree(&v)),
        Err(_) => None,
    }
}

/// The value of the first entry with the given key, if any.
pub open spec fn spec_obj_get(entries: Seq<(String, JsonValue)>, key: Seq<char>) -> Option<
    JsonValue,
>
    decreases entries.len(),
{
    if entries.len() == 0 {
        Option::None
    } else if entries[0].0@ == key {
        Option::Some(entries[0].1)
    } else {
        spec_obj_get(entries.skip(1), key)
    }
}

/// Look up the first entry with the given key.
pub fn obj_get<'a>(entries: &'a Vec<(String, JsonValue)>, key: &str) -> (r: Option<&'a JsonValue>)
    ensures
        match r {
            Option::Some(v) => spec_obj_get(entries@, key@) == Option::Some(*v),
            Option::None => spec_obj_get(entries@, key@) is None,
        },
{
    let n = entries.len();
    let mut i: usize = 0;
    proof {
        assert(entries@.skip(0) =~= entries@);
    }
    while i < n
        invariant
            i <= n,
            n == entries@.len(),
            spec_obj_get(entries@, key@) == spec_obj_get(entries@.skip(i as int), key@),
        decreases n - i,
    {
        if str_eq(entries[i].0.as_str(), key) {
            proof {
                assert(entries@.skip(i as int)[0] == entries@[i as int]);
            }
            return Some(&entries[i].1);
        }
        proof {
            assert(entries@.skip(i as int)[0] == entries@[i as int]);
            assert(entries@.skip(i as int).skip(1) =~= entries@.skip(i + 1));
        }
        i += 1;
    }
    None
}

} // verus!
